//! Verified core of a field-oriented control (FOC) firmware for BLDC motors:
//! angle models, Clarke/Park transforms, the open-loop drive, the motor state
//! machine, current-sensor and shaft calibration (with the pole-pair
//! estimate), PWM duty computation, ADC register planning and the serial
//! command interface.

pub mod angle;
pub mod units;
pub mod as5600;
pub mod state;
pub mod state_machine;
pub mod clarke;
pub mod motor_driver;
pub mod electrical_angle;
pub mod current;
pub mod current_task;
pub mod fixed_point;
pub mod clarke_fixed;
pub mod park_transformation;
pub mod park;
pub mod drive;
pub mod controller;
pub mod serial;
pub mod command;
pub mod shaft_calibration;
pub mod angle_calibration;
pub mod adc;
pub mod shaft;
