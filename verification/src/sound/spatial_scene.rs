pub mod sound;

pub use sound::SpatialSceneShared;
