//! Synthesis of four PWM duty values from an electrical angle and an
//! amplitude, for each motor topology and output wiring.
use vstd::prelude::*;
use crate::fixed::{trunc_div, div_toward_zero};

verus! {

/// Winding and drive arrangement of the motor.
#[derive(Clone, Copy, Debug, PartialEq, Eq, Structural)]
pub enum MotorType {
    /// No motor: every channel is held at 0.
    Undefined,
    /// Brushed motor across channels A and B.
    Dc,
    /// Two-phase stepper: A on channels A and B, B on channels C and D.
    Stepper,
    /// Three-phase motor on channels A, B and C.
    Bldc,
}

/// Order in which the logical channels A, B, C, D reach the four outputs.
#[derive(Clone, Copy, Debug, PartialEq, Eq, Structural)]
pub enum PhasePattern {
    Abcd,
    Acbd,
    Adbc,
}

/// Unit waveform over one electrical turn: a triangle with its peaks at a
/// quarter and three quarters of the turn, within `[-32767, 32767]`.
pub open spec fn wave(angle: u16) -> int {
    let q = angle as int;
    let t = if q < 16384 {
        2 * q
    } else if q < 49152 {
        65536 - 2 * q
    } else {
        2 * q - 131072
    };
    if t > 32767 {
        32767
    } else if t < -32767 {
        -32767
    } else {
        t
    }
}

/// Duty of one phase: the amplitude scaled by the waveform.
pub open spec fn phase_duty(angle: u16, amplitude: i16) -> i16 {
    trunc_div(amplitude * wave(angle), 32768) as i16
}

/// The duty values in logical channel order A, B, C, D.
pub open spec fn channel_duties(motor: MotorType, angle: u16, amplitude: i16) -> Seq<i16> {
    match motor {
        MotorType::Undefined => seq![0i16, 0i16, 0i16, 0i16],
        MotorType::Dc => {
            let a = phase_duty(16384, amplitude);
            seq![a, (-a) as i16, 0i16, 0i16]
        },
        MotorType::Stepper => {
            let a = phase_duty(angle, amplitude);
            let b = phase_duty(angle.wrapping_add(16384), amplitude);
            seq![a, (-a) as i16, b, (-b) as i16]
        },
        MotorType::Bldc => seq![
            phase_duty(angle, amplitude),
            phase_duty(angle.wrapping_add(21845), amplitude),
            phase_duty(angle.wrapping_add(43690), amplitude),
            0i16,
        ],
    }
}

/// Places logical channels `c` on the outputs.
pub open spec fn arrange(pattern: PhasePattern, c: Seq<i16>) -> Seq<i16> {
    match pattern {
        PhasePattern::Abcd => seq![c[0], c[1], c[2], c[3]],
        PhasePattern::Acbd => seq![c[0], c[2], c[1], c[3]],
        PhasePattern::Adbc => seq![c[0], c[3], c[1], c[2]],
    }
}

/// The four outputs for a signed electrical angle and an amplitude.
pub open spec fn synthesize(motor: MotorType, pattern: PhasePattern, angle: i16, amplitude: i16) -> Seq<i16> {
    arrange(pattern, channel_duties(motor, angle as u16, amplitude))
}

fn wave_at(angle: u16) -> (r: i32)
    ensures
        r == wave(angle),
        -32767 <= r <= 32767,
{
    let q = angle as i32;
    let t: i32 = if q < 16384 {
        2 * q
    } else if q < 49152 {
        65536 - 2 * q
    } else {
        2 * q - 131072
    };
    if t > 32767 {
        32767
    } else if t < -32767 {
        -32767
    } else {
        t
    }
}

fn duty_at(angle: u16, amplitude: i16) -> (r: i16)
    ensures
        r == phase_duty(angle, amplitude),
        -32767 <= r <= 32767,
{
    let w = wave_at(angle);
    proof {
        let a = amplitude as int;
        let x = w as int;
        assert(-32768 * 32767 <= a * x <= 32768 * 32767) by (nonlinear_arith)
            requires -32768 <= a <= 32767, -32767 <= x <= 32767;
        if a * x >= 0 {
            assert((a * x) / 32768 <= 32767) by (nonlinear_arith)
                requires 0 <= a * x <= 32768 * 32767;
        } else {
            assert((-(a * x)) / 32768 <= 32767) by (nonlinear_arith)
                requires 0 <= -(a * x) <= 32768 * 32767;
        }
    }
    let p: i64 = (amplitude as i64) * (w as i64);
    let q = div_toward_zero(p, 32768);
    q as i16
}

/// PWM synthesis for one motor topology and one output wiring.
#[derive(Clone, Copy, Debug, PartialEq, Eq, Structural)]
pub struct MotorPWM {
    pub motor: MotorType,
    pub connection: PhasePattern,
}

impl MotorPWM {
    pub fn new(motor: MotorType, connection: PhasePattern) -> (r: Self)
        ensures
            r.motor == motor,
            r.connection == connection,
    {
        MotorPWM { motor, connection }
    }

    /// The four outputs for `(electrical angle, amplitude)`.
    pub fn tick_angle(&self, angle_amplitude: (i16, i16)) -> (r: [i16; 4])
        ensures
            r@ == synthesize(self.motor, self.connection, angle_amplitude.0, angle_amplitude.1),
    {
        let angle = angle_amplitude.0 as u16;
        let amplitude = angle_amplitude.1;
        let c: [i16; 4] = match self.motor {
            MotorType::Undefined => [0, 0, 0, 0],
            MotorType::Dc => {
                let a = duty_at(16384, amplitude);
                [a, -a, 0, 0]
            },
            MotorType::Stepper => {
                let a = duty_at(angle, amplitude);
                let b = duty_at(angle.wrapping_add(16384), amplitude);
                [a, -a, b, -b]
            },
            MotorType::Bldc => [
                duty_at(angle, amplitude),
                duty_at(angle.wrapping_add(21845), amplitude),
                duty_at(angle.wrapping_add(43690), amplitude),
                0,
            ],
        };
        assert(c@ =~= channel_duties(self.motor, angle, amplitude));
        let r: [i16; 4] = match self.connection {
            PhasePattern::Abcd => [c[0], c[1], c[2], c[3]],
            PhasePattern::Acbd => [c[0], c[2], c[1], c[3]],
            PhasePattern::Adbc => [c[0], c[3], c[1], c[2]],
        };
        assert(r@ =~= arrange(self.connection, c@));
        r
    }

    /// Switches the motor topology for later synthesis.
    pub fn change_motor_mode(&mut self, motor: MotorType)
        ensures
            final(self).motor == motor,
            final(self).connection == old(self).connection,
    {
        self.motor = motor;
    }

    /// Switches the output wiring for later synthesis.
    pub fn change_phase_mode(&mut self, connection: PhasePattern)
        ensures
            final(self).connection == connection,
            final(self).motor == old(self).motor,
    {
        self.connection = connection;
    }
}

/// With amplitude 0 every output is 0, whatever the angle, topology and wiring.
pub proof fn lemma_zero_amplitude_is_idle(motor: MotorType, pattern: PhasePattern, angle: i16)
    ensures
        synthesize(motor, pattern, angle, 0) =~= seq![0i16, 0i16, 0i16, 0i16],
{
    let u = angle as u16;
    assert(phase_duty(u, 0) == 0);
    assert(phase_duty(16384, 0) == 0);
    assert(phase_duty(u.wrapping_add(16384), 0) == 0);
    assert(phase_duty(u.wrapping_add(21845), 0) == 0);
    assert(phase_duty(u.wrapping_add(43690), 0) == 0);
}

} // verus!
