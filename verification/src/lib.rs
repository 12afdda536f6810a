//! Morse-timed optical line code: symbol table, timing codec, frame
//! synchronisation, the receive-side decoder and the transmit-side encoder.

pub mod symbols;
pub mod buffers;
pub mod timing;
pub mod table;
pub mod parser;
pub mod encoder;
pub mod decoder;
pub mod link;

pub use buffers::{BitSequece, DataPacket, MorseBitSequence};
pub use decoder::Decoder;
pub use encoder::form_data_packet;
pub use parser::{ListeningForMessage, Parser, Processing, WaitingForStart};
pub use symbols::{Bit, MorseBit, MorseError, HIGH_THRESHOLD, START_SEQUENCE, TIME_STEP_MICROS};
pub use table::MorseConversion;
