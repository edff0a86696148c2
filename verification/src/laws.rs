//! What holds between the encoder and the decoder.

pub mod defaults;
pub mod fields;
pub mod lines;
pub mod reader;
pub mod round_trip;
