//! The commutation state machine: one call of `tick` per control period.
use vstd::prelude::*;
use crate::fixed::{trunc_div, div_toward_zero};
use crate::position::Position;
use crate::supply::{SupplyVoltage, lemma_reading_in_range};
use crate::filter::{FilterLPF, lemma_unsmoothed_passes_through};
use crate::calibrator::AngleCalibrator;
use crate::pwm::{MotorPWM, MotorType, PhasePattern, synthesize, lemma_zero_amplitude_is_idle};

verus! {

/// Lowest supply reading, in millivolts.
pub const MIN_SUPPLY_MV: u16 = 200;

/// Where the driver is in its life: finding the angle offset, running
/// closed-loop, or held with no drive after a fault.
#[derive(Clone, Copy, Debug, PartialEq, Eq, Structural)]
pub enum MotorStatus {
    Calibrating,
    Ready,
    Error,
}

/// Duty fraction for a commanded voltage at a supply voltage: the command
/// scaled by 2^15 over `supply_mv + 1`, rounded toward zero, capped at
/// `i16::MAX`. Below `i16::MIN` the value is not clamped: it keeps its low
/// 16 bits.
pub open spec fn duty_amplitude(command_mv: i32, supply_mv: i32) -> i16 {
    let d = trunc_div(command_mv * 32768, supply_mv + 1);
    if d > 32767 {
        32767
    } else {
        d as i16
    }
}

/// Everything a driver holds but its last output.
#[derive(Clone, Copy, Debug, PartialEq, Eq, Structural)]
pub struct DriverState {
    pub motor: MotorPWM,
    pub frequency: u16,
    pub position: Position,
    pub status: MotorStatus,
    pub angle_el: u16,
    pub amplitude: i16,
    pub calibrator: AngleCalibrator,
    pub filter: FilterLPF,
    pub supply: SupplyVoltage,
    /// Ticks run while ready; wraps at the limits of `i32`.
    pub ticker: i32,
}

impl DriverState {
    /// The state of a new driver: calibrating, at angle 0 with no drive.
    pub open spec fn initial(motor: MotorType, connection: PhasePattern, frequency: u16, max_sup_voltage: i32) -> DriverState {
        let duration: u32 = if frequency == 0 { 1 } else { frequency as u32 };
        DriverState {
            motor: MotorPWM { motor, connection },
            frequency,
            position: Position { angle: 0, position: 0 },
            status: MotorStatus::Calibrating,
            angle_el: 0,
            amplitude: 0,
            calibrator: AngleCalibrator {
                duration,
                ticks: 0,
                step: (65535u32 / duration) as u16,
                angle: 0,
                offset: 0,
                ready: false,
            },
            filter: FilterLPF { value: 0, smoothing: 0 },
            supply: SupplyVoltage { min_mv: MIN_SUPPLY_MV, max_mv: max_sup_voltage, voltage_mv: MIN_SUPPLY_MV as i32 },
            ticker: 0,
        }
    }

    pub open spec fn ready(self) -> bool {
        self.status == MotorStatus::Ready
    }

    /// The state after one tick with commanded voltage `command_mv`, raw
    /// position `raw_position` and raw supply sample `raw_supply`.
    pub open spec fn next(self, command_mv: i32, raw_position: u16, raw_supply: u16) -> DriverState {
        let position = self.position.next(raw_position);
        let supply = self.supply.next(raw_supply);
        let amplitude = duty_amplitude(command_mv, supply.voltage_mv);
        match self.status {
            MotorStatus::Ready => {
                let filter = self.filter.next(position.angle);
                DriverState {
                    position,
                    supply,
                    amplitude,
                    filter,
                    ticker: self.ticker.wrapping_add(1),
                    angle_el: self.calibrator.correction(filter.value).1,
                    ..self
                }
            },
            MotorStatus::Error => DriverState { position, supply, amplitude: 0, ..self },
            MotorStatus::Calibrating => {
                let calibrator = self.calibrator.next(position.position);
                DriverState {
                    position,
                    supply,
                    amplitude,
                    calibrator,
                    angle_el: calibrator.angle,
                    status: if calibrator.ready {
                        MotorStatus::Ready
                    } else {
                        MotorStatus::Calibrating
                    },
                    ..self
                }
            },
        }
    }

    /// The state once a fault is cleared.
    pub open spec fn cleared(self) -> DriverState {
        if self.status == MotorStatus::Error {
            DriverState {
                status: if self.calibrator.ready {
                    MotorStatus::Ready
                } else {
                    MotorStatus::Calibrating
                },
                ..self
            }
        } else {
            self
        }
    }

    /// The duty values that the state's angle and amplitude synthesize.
    pub open spec fn output(self) -> Seq<i16> {
        synthesize(self.motor.motor, self.motor.connection, self.angle_el as i16, self.amplitude)
    }
}

/// Duty fraction for `command_mv` at a supply of `supply_mv` millivolts.
pub fn duty_ratio(command_mv: i32, supply_mv: i32) -> (r: i16)
    requires
        supply_mv >= 0,
    ensures
        r == duty_amplitude(command_mv, supply_mv),
{
    let scaled: i64 = (command_mv as i64) * 32768;
    let duty: i64 = div_toward_zero(scaled, supply_mv as i64 + 1);
    if duty > i16::MAX as i64 {
        i16::MAX
    } else {
        duty as i16
    }
}

/// The motor driver: owns the sensing, calibration and synthesis stages and
/// runs them once per tick.
pub struct MotorDriver {
    motor: MotorPWM,
    frequency: u16,
    pwm: [i16; 4],
    position: Position,
    motor_status: MotorStatus,
    angle_el: u16,
    amplitude: i16,
    angle_calibrator: AngleCalibrator,
    filter: FilterLPF,
    supply: SupplyVoltage,
    ticker: i32,
}

impl MotorDriver {
    pub closed spec fn state(&self) -> DriverState {
        DriverState {
            motor: self.motor,
            frequency: self.frequency,
            position: self.position,
            status: self.motor_status,
            angle_el: self.angle_el,
            amplitude: self.amplitude,
            calibrator: self.angle_calibrator,
            filter: self.filter,
            supply: self.supply,
            ticker: self.ticker,
        }
    }

    /// The duty values returned by the last tick.
    pub closed spec fn last_pwm(&self) -> Seq<i16> {
        self.pwm@
    }

    /// A driver for `motor` wired as `connection`, ticking `frequency` times
    /// a second, on a supply whose full scale is `max_sup_voltage` mV.
    pub fn new(motor: MotorType, connection: PhasePattern, frequency: u16, max_sup_voltage: i32) -> (r: Self)
        ensures
            r.state() == DriverState::initial(motor, connection, frequency, max_sup_voltage),
            r.state().status == MotorStatus::Calibrating,
            !r.state().ready(),
            r.last_pwm() == seq![0i16, 0i16, 0i16, 0i16],
    {
        let r = MotorDriver {
            motor: MotorPWM::new(motor, connection),
            frequency,
            pwm: [0; 4],
            position: Position::new(),
            motor_status: MotorStatus::Calibrating,
            angle_el: 0,
            amplitude: 0,
            angle_calibrator: AngleCalibrator::new(frequency),
            filter: FilterLPF::new(0, 0),
            supply: SupplyVoltage::new(MIN_SUPPLY_MV, max_sup_voltage),
            ticker: 0,
        };
        assert(r.pwm@ =~= seq![0i16, 0i16, 0i16, 0i16]);
        r
    }

    /// One control period: takes the samples, updates the state and returns
    /// the four duty values.
    pub fn tick(&mut self, voltage_on_motor: i32, encoder_pos: u16, supply: u16) -> (r: [i16; 4])
        ensures
            final(self).state() == old(self).state().next(voltage_on_motor, encoder_pos, supply),
            r@ == final(self).state().output(),
            final(self).last_pwm() == r@,
    {
        self.position.tick(encoder_pos);
        self.supply.tick(supply);
        let voltage_mv = self.supply.voltage_mv();
        self.amplitude = duty_ratio(voltage_on_motor, voltage_mv);
        match self.motor_status {
            MotorStatus::Ready => {
                self.ticker = self.ticker.wrapping_add(1);
                let filtered = self.filter.tick(self.position.angle());
                self.angle_el = self.angle_calibrator.get_correction(filtered).1;
            },
            MotorStatus::Error => {
                self.amplitude = 0;
            },
            MotorStatus::Calibrating => {
                self.angle_el = self.angle_calibrator.tick(self.position.position());
                if self.angle_calibrator.is_ready() {
                    self.motor_status = MotorStatus::Ready;
                }
            },
        }
        self.pwm = self.motor.tick_angle((self.angle_el as i16, self.amplitude));
        self.pwm
    }

    /// Whether calibration has finished and the driver runs closed-loop.
    pub fn is_ready(&self) -> (r: bool)
        ensures
            r == self.state().ready(),
    {
        self.motor_status == MotorStatus::Ready
    }

    /// Switches the motor topology; the next tick synthesizes with it.
    pub fn change_motor_mode(&mut self, motor: MotorType)
        ensures
            final(self).state() == (DriverState {
                motor: MotorPWM { motor, ..old(self).state().motor },
                ..old(self).state()
            }),
            final(self).last_pwm() == old(self).last_pwm(),
    {
        self.motor.change_motor_mode(motor);
    }

    /// Switches the output wiring; the next tick synthesizes with it.
    pub fn change_phase_mode(&mut self, connection: PhasePattern)
        ensures
            final(self).state() == (DriverState {
                motor: MotorPWM { connection, ..old(self).state().motor },
                ..old(self).state()
            }),
            final(self).last_pwm() == old(self).last_pwm(),
    {
        self.motor.change_phase_mode(connection);
    }

    /// The duty values returned by the last tick, without recomputing them.
    pub fn get_pwm(&mut self) -> (r: [i16; 4])
        ensures
            r@ == old(self).last_pwm(),
            *final(self) == *old(self),
    {
        self.pwm
    }

    /// Entry point for fault management: from the next tick on the driver
    /// gives no drive and holds its electrical angle.
    pub fn assert_fault(&mut self)
        ensures
            final(self).state() == (DriverState { status: MotorStatus::Error, ..old(self).state() }),
            final(self).last_pwm() == old(self).last_pwm(),
    {
        self.motor_status = MotorStatus::Error;
    }

    /// Entry point for fault management: leaves the fault state, back to
    /// running when calibration had finished, else back to calibrating.
    /// Does nothing outside the fault state.
    pub fn clear_fault(&mut self)
        ensures
            final(self).state() == old(self).state().cleared(),
            final(self).last_pwm() == old(self).last_pwm(),
    {
        if self.motor_status == MotorStatus::Error {
            if self.angle_calibrator.is_ready() {
                self.motor_status = MotorStatus::Ready;
            } else {
                self.motor_status = MotorStatus::Calibrating;
            }
        }
    }

    pub fn status(&self) -> (r: MotorStatus)
        ensures
            r == self.state().status,
    {
        self.motor_status
    }

    /// The duty fraction of the last tick.
    pub fn amplitude(&self) -> (r: i16)
        ensures
            r == self.state().amplitude,
    {
        self.amplitude
    }

    /// The electrical angle of the last tick, one turn per 65536.
    pub fn electrical_angle(&self) -> (r: u16)
        ensures
            r == self.state().angle_el,
    {
        self.angle_el
    }

    /// Ticks run while ready.
    pub fn tick_count(&self) -> (r: i32)
        ensures
            r == self.state().ticker,
    {
        self.ticker
    }
}

/// While calibrating, a tick drives the calibrator's sweep angle and turns
/// to running exactly when the calibrator reports that it is ready; it never
/// enters the fault state.
pub proof fn law_calibration_step(s: DriverState, command_mv: i32, raw_position: u16, raw_supply: u16)
    requires
        s.status == MotorStatus::Calibrating,
    ensures
        ({
            let n = s.next(command_mv, raw_position, raw_supply);
            &&& 0 <= n.angle_el <= 65535
            &&& n.calibrator == s.calibrator.next(n.position.position)
            &&& n.angle_el == n.calibrator.angle
            &&& n.ready() == n.calibrator.ready
            &&& n.status != MotorStatus::Error
        }),
{
}

/// No tick changes the status but from calibrating to running: once running
/// the driver stays running, and a fault stays until it is cleared.
pub proof fn law_status_monotonic(s: DriverState, command_mv: i32, raw_position: u16, raw_supply: u16)
    requires
        s.status != MotorStatus::Calibrating,
    ensures
        s.next(command_mv, raw_position, raw_supply).status == s.status,
{
}

/// In the fault state a tick gives amplitude 0 at the held electrical angle,
/// so every output is 0, whatever the command.
pub proof fn law_fault_gives_no_drive(s: DriverState, command_mv: i32, raw_position: u16, raw_supply: u16)
    requires
        s.status == MotorStatus::Error,
    ensures
        ({
            let n = s.next(command_mv, raw_position, raw_supply);
            &&& n.amplitude == 0
            &&& n.angle_el == s.angle_el
            &&& n.output() == synthesize(s.motor.motor, s.motor.connection, s.angle_el as i16, 0)
            &&& n.output() =~= seq![0i16, 0i16, 0i16, 0i16]
        }),
{
    lemma_zero_amplitude_is_idle(s.motor.motor, s.motor.connection, s.angle_el as i16);
}

/// Outside the fault state, a non-negative command gives the amplitude
/// `min(i16::MAX, (command << 15) / (supply_mv + 1))` over a non-negative
/// supply reading, and the amplitude is never negative.
pub proof fn law_amplitude_of_positive_command(s: DriverState, command_mv: i32, raw_position: u16, raw_supply: u16)
    requires
        command_mv >= 0,
        s.status != MotorStatus::Error,
    ensures
        ({
            let n = s.next(command_mv, raw_position, raw_supply);
            let mv = n.supply.voltage_mv;
            let d = (command_mv * 32768) / (mv + 1);
            &&& mv >= 0
            &&& n.amplitude == (if d > 32767 { 32767 } else { d })
            &&& n.amplitude >= 0
        }),
{
    let n = s.next(command_mv, raw_position, raw_supply);
    let mv = n.supply.voltage_mv;
    let c = command_mv as int;
    lemma_reading_in_range(s.supply.min_mv, s.supply.max_mv, raw_supply);
    assert(mv >= 0);
    assert(c * 32768 >= 0);
    assert((c * 32768) / (mv + 1) >= 0) by (nonlinear_arith)
        requires c * 32768 >= 0, mv + 1 > 0;
}

/// A mode change reaches the synthesis of the next tick and nothing else:
/// the next state is the one the old mode would give, with the new topology.
pub proof fn law_mode_change_applies_next_tick(
    s: DriverState,
    motor: MotorType,
    command_mv: i32,
    raw_position: u16,
    raw_supply: u16,
)
    ensures
        ({
            let t = DriverState { motor: MotorPWM { motor, ..s.motor }, ..s };
            let n = t.next(command_mv, raw_position, raw_supply);
            let m = s.next(command_mv, raw_position, raw_supply);
            &&& n == (DriverState { motor: MotorPWM { motor, ..s.motor }, ..m })
            &&& n.output() == synthesize(motor, s.motor.connection, m.angle_el as i16, m.amplitude)
        }),
{
}

/// While running with an unsmoothed filter, the electrical angle is the
/// sensed angle plus the offset that calibration found.
pub proof fn law_running_angle_tracks_sensor(s: DriverState, command_mv: i32, raw_position: u16, raw_supply: u16)
    requires
        s.status == MotorStatus::Ready,
        s.filter.smoothing == 0,
    ensures
        s.next(command_mv, raw_position, raw_supply).angle_el == raw_position.wrapping_add(s.calibrator.offset),
{
    lemma_unsmoothed_passes_through(s.filter, raw_position);
}

/// Two drivers in the same state, given the same samples, reach the same
/// state and return the same duty values.
pub proof fn law_tick_deterministic(
    s: DriverState,
    t: DriverState,
    command_mv: i32,
    raw_position: u16,
    raw_supply: u16,
)
    requires
        s == t,
    ensures
        s.next(command_mv, raw_position, raw_supply) == t.next(command_mv, raw_position, raw_supply),
        s.next(command_mv, raw_position, raw_supply).output() == t.next(command_mv, raw_position, raw_supply).output(),
{
}

} // verus!
