//! Verified core of a sensor-dashboard firmware: a two-wire bus frame
//! planner, a display-controller command layer, decimal digit formatting,
//! proportional actuator scaling, wrapping event counters, and the
//! control-loop decision step. Hardware register access lives outside this
//! library; every function here computes plain values and is verified.

pub mod actuator;
pub mod bus;
pub mod control;
pub mod counters;
pub mod digits;
pub mod display;
