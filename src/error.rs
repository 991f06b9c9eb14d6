use vstd::prelude::*;

verus! {

/// Everything that can go wrong while composing, detecting or running a
/// self-contained image.
#[derive(Debug, Clone, Copy, PartialEq, Eq, Structural)]
pub enum StandaloneError {
    /// The image is shorter than a trailer, so its last sixteen bytes cannot be read.
    ImageTooShort,
    /// The trailer points past the start of the trailer itself.
    OffsetOutOfRange,
    /// The embedded payload is not valid UTF-8 text.
    InvalidUtf8,
    /// The output path names an existing directory.
    OutputIsDirectory,
    /// The output path names an existing file that is not a self-contained image.
    RefuseOverwrite,
    /// A module other than the embedded one was asked for.
    ModuleLoadingUnsupported,
    /// The script asked for a worker, which this mode does not provide.
    WorkersUnsupported,
}

/// The text that reports `e`.
pub open spec fn error_message(e: StandaloneError) -> Seq<char> {
    match e {
        StandaloneError::ImageTooShort => "image is shorter than its trailer"@,
        StandaloneError::OffsetOutOfRange => "trailer points past the end of the payload"@,
        StandaloneError::InvalidUtf8 => "embedded script is not valid UTF-8"@,
        StandaloneError::OutputIsDirectory => "Could not compile: output is a directory."@,
        StandaloneError::RefuseOverwrite => "Could not compile: cannot overwrite output."@,
        StandaloneError::ModuleLoadingUnsupported => "Self-contained binaries don't support module loading"@,
        StandaloneError::WorkersUnsupported => "Workers are not supported in self-contained binaries"@,
    }
}

impl StandaloneError {
    /// The text that reports this error.
    pub fn message(&self) -> (r: String)
        ensures
            r@ == error_message(*self),
    {
        match self {
            StandaloneError::ImageTooShort => "image is shorter than its trailer".to_owned(),
            StandaloneError::OffsetOutOfRange => "trailer points past the end of the payload".to_owned(),
            StandaloneError::InvalidUtf8 => "embedded script is not valid UTF-8".to_owned(),
            StandaloneError::OutputIsDirectory => "Could not compile: output is a directory.".to_owned(),
            StandaloneError::RefuseOverwrite => "Could not compile: cannot overwrite output.".to_owned(),
            StandaloneError::ModuleLoadingUnsupported => "Self-contained binaries don't support module loading".to_owned(),
            StandaloneError::WorkersUnsupported => "Workers are not supported in self-contained binaries".to_owned(),
        }
    }
}

} // verus!
