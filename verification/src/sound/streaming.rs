pub mod data;
pub mod decoder;
pub mod sound;

pub use data::StreamingSoundData;
pub use decoder::Decoder;
