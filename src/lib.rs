//! Control logic of a small display demo: an LED blinks once per second and a
//! monochrome display shows a counter that grows by one on every blink.
//!
//! The library decides what happens next; the board support code performs
//! each step (waiting for a timer tick, driving the LED pin, talking to the
//! display) and reports back whether it succeeded.
pub mod display;
pub mod grinder;
pub mod text;
pub mod trace;
