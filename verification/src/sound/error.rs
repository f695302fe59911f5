use vstd::prelude::*;

verus! {

/// An error of the standard library's I/O.
#[verifier::external_type_specification]
#[verifier::external_body]
pub struct ExIoError(std::io::Error);

/// An error of the Symphonia audio decoding library.
#[verifier::external_type_specification]
#[verifier::external_body]
pub struct ExSymphoniaError(symphonia::core::errors::Error);

/// Errors that can occur when loading or streaming an audio file.
#[derive(Debug)]
pub enum FromFileError {
    /// Could not determine the default audio track in the file.
    NoDefaultTrack,
    /// Could not determine the sample rate of the audio.
    UnknownSampleRate,
    /// The audio uses an unsupported channel configuration. Only
    /// mono and stereo audio is supported.
    UnsupportedChannelConfiguration,
    /// An error occurred while reading the file from the filesystem.
    IoError(std::io::Error),
    /// An error occurred when parsing the file.
    SymphoniaError(symphonia::core::errors::Error),
}

impl From<std::io::Error> for FromFileError {
    fn from(v: std::io::Error) -> (error: Self)
        ensures
            error == FromFileError::IoError(v),
    {
        Self::IoError(v)
    }
}

impl vstd::std_specs::convert::FromSpecImpl<std::io::Error> for FromFileError {
    open spec fn obeys_from_spec() -> bool {
        true
    }

    open spec fn from_spec(v: std::io::Error) -> Self {
        FromFileError::IoError(v)
    }
}

impl From<symphonia::core::errors::Error> for FromFileError {
    fn from(v: symphonia::core::errors::Error) -> (error: Self)
        ensures
            error == FromFileError::SymphoniaError(v),
    {
        Self::SymphoniaError(v)
    }
}

impl vstd::std_specs::convert::FromSpecImpl<symphonia::core::errors::Error> for FromFileError {
    open spec fn obeys_from_spec() -> bool {
        true
    }

    open spec fn from_spec(v: symphonia::core::errors::Error) -> Self {
        FromFileError::SymphoniaError(v)
    }
}

} // verus!
