//! A verified model of an LED fade effect driven by pulse-width modulation.
//!
//! The library holds the one piece of behaviour worth stating precisely: the
//! duty-cycle ramp, an infinite sequence of integer duty percentages that
//! climbs from a minimum up to a maximum and back down again, forever, with a
//! fixed pause between steps. The [`ramp`] module models that sequence and the
//! state machine that generates it; the [`fault`] module states the firmware's
//! policy for the one failure it can meet, a hardware fault from the PWM
//! channel.
//!
//! Driving an actual PWM peripheral and pausing between steps are left to the
//! surrounding firmware, which asks the ramp for one step at a time and
//! performs it.

pub mod fault;
pub mod ramp;
