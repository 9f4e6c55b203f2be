//! Library for reading a wireless body-composition scale: a binary payload
//! decoder, a timestamp plausibility gate, a fixed-point body-composition
//! calculator, a bounded-retry probe state machine, and a discovery filter.
pub mod body;
pub mod calendar;
pub mod codec;
pub mod discovery;
pub mod fixed;
pub mod gate;
pub mod probe;
