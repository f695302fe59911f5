pub mod data;
pub mod settings;
pub mod sound;

pub use data::StaticSoundData;
pub use settings::StaticSoundSettings;
