//! Driver logic for an HC-SR04 class ultrasonic distance sensor.
//!
//! The sensor is driven through a trigger output, an echo input and a
//! microsecond time source. The decisions of one measurement are a state
//! machine (`cycle`): it asks for one pin, delay or clock operation at a
//! time and is told how that operation went, so the whole sequence is
//! verified independently of any particular board.
pub mod sensor;
pub mod cycle;
pub mod guarantees;

pub use sensor::{Error, Timer, HCSR04};
pub use cycle::{distance_um, Action, Event, Stage};
