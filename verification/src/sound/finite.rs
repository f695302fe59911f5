pub mod error;
pub mod sound;
pub mod static_sound;
pub mod symphonia;

pub use error::{FromFileError, LoadError};
pub use sound::FiniteSound;
pub use static_sound::StaticSoundData;
