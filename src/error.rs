use vstd::prelude::*;

verus! {

/// The filesystem step that failed while storing the list.
#[derive(Debug, Clone, Copy, PartialEq, Eq, Structural)]
pub enum IoStep {
    /// Creating the destination directory or one of its ancestors.
    CreateDir,
    /// Opening the output file for writing, or writing the bytes into it.
    Write,
}

/// Why retrieving and storing the revocation list failed.
#[derive(Debug, Clone, Copy, PartialEq, Eq, Structural)]
pub enum CrlError {
    /// The processor generation could not be determined.
    Detection,
    /// The network request failed.
    Fetch,
    /// A filesystem step failed.
    Io(IoStep),
}

/// The host's processor is unsupported, or its generation could not be read.
#[derive(Debug, Clone, Copy, PartialEq, Eq, Structural)]
pub struct DetectionError;

impl CrlError {
    /// Whether this is a failure of the filesystem.
    pub fn is_io(&self) -> (r: bool)
        ensures
            r == (*self is Io),
    {
        match self {
            CrlError::Io(_) => true,
            _ => false,
        }
    }
}

} // verus!
