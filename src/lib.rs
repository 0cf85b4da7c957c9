//! Tick-driven commutation controller: turns a commanded voltage, a raw
//! position sample and a raw supply sample into four PWM duty values.

pub mod fixed;
pub mod position;
pub mod supply;
pub mod filter;
pub mod calibrator;
pub mod pwm;
pub mod driver;

pub use driver::{MotorDriver, MotorStatus};
pub use pwm::{MotorType, PhasePattern};
