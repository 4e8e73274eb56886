//! Verified register-abstraction layer and controller for the AXP192
//! power-management IC, together with the pure logic behind its
//! configuration sequence and ADC measurement queries.

pub mod adc;
pub mod controller;
pub mod error;
pub mod fields;
pub mod regmap;
pub mod sim;
pub mod transport;
