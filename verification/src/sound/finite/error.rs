use vstd::prelude::*;

verus! {

/// Errors that can occur when loading or streaming an audio file.
#[derive(Debug)]
pub enum LoadError {
    /// Could not determine the default audio track in the file.
    NoDefaultTrack,
    /// Could not determine the sample rate of the audio.
    UnknownSampleRate,
    /// The audio uses an unsupported channel configuration. Only
    /// mono and stereo audio is supported.
    UnsupportedChannelConfiguration,
    /// An error occurred when parsing the file.
    SymphoniaError(symphonia::core::errors::Error),
}

impl From<symphonia::core::errors::Error> for LoadError {
    fn from(v: symphonia::core::errors::Error) -> (error: Self)
        ensures
            error == LoadError::SymphoniaError(v),
    {
        Self::SymphoniaError(v)
    }
}

impl vstd::std_specs::convert::FromSpecImpl<symphonia::core::errors::Error> for LoadError {
    open spec fn obeys_from_spec() -> bool {
        true
    }

    open spec fn from_spec(v: symphonia::core::errors::Error) -> Self {
        LoadError::SymphoniaError(v)
    }
}

/// Errors that can occur when loading an audio file from the filesystem.
#[derive(Debug)]
pub enum FromFileError {
    /// The file could not be read.
    IoError(std::io::Error),
    /// The audio in the file could not be loaded.
    LoadError(LoadError),
}

impl From<std::io::Error> for FromFileError {
    fn from(v: std::io::Error) -> (error: Self)
        ensures
            error == FromFileError::IoError(v),
    {
        Self::IoError(v)
    }
}

impl vstd::std_specs::convert::FromSpecImpl<std::io::Error> for FromFileError {
    open spec fn obeys_from_spec() -> bool {
        true
    }

    open spec fn from_spec(v: std::io::Error) -> Self {
        FromFileError::IoError(v)
    }
}

impl From<LoadError> for FromFileError {
    fn from(v: LoadError) -> (error: Self)
        ensures
            error == FromFileError::LoadError(v),
    {
        Self::LoadError(v)
    }
}

impl vstd::std_specs::convert::FromSpecImpl<LoadError> for FromFileError {
    open spec fn obeys_from_spec() -> bool {
        true
    }

    open spec fn from_spec(v: LoadError) -> Self {
        FromFileError::LoadError(v)
    }
}

} // verus!
