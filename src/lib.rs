//! Design decisions for op-amp gain and offset stages.
//!
//! The library decides which of four circuit topologies realises a
//! requested gain and offset, which resistor values the operator has to
//! choose for it and in what order, and whether the command-line inputs
//! are usable. The resistor algebra itself runs on floating point and is
//! left to the program that drives the library.
pub mod topology;
pub mod seeds;
pub mod inputs;
