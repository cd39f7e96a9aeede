//! Trigger-and-measure core of an ultrasonic ranging appliance: wraparound-safe echo timing,
//! distance conversion and classification, the ranging loop's decisions, the interrupt
//! handler's steps, the shared pin slots, and the frames drawn on the display.

pub mod dispatch;
pub mod message;
pub mod presentation;
pub mod ranging;
pub mod registry;
pub mod timing;
