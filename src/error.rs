use vstd::prelude::*;

verus! {

/// Every failure that a stage of the image pipeline can report.
#[derive(Debug, Clone)]
pub enum Error {
    /// No manifest file in the given directory.
    NoCargoFile(String),
    /// A manifest file that could not be parsed.
    InvalidCargoFile(String),
    /// A workspace member pattern that is not a valid glob.
    PatternError(String),
    /// A path produced by expanding a workspace member that could not be read.
    GlobError(String),
    /// An input/output failure, described by its message.
    IOError(String),
    /// A required tool is absent from the search path.
    ExecutableNotFound(String),
    /// The build of the named project exited with the given code.
    BuildFailed(String, i32),
    /// A parameter outside the accepted range.
    InvalidParameter(String),
    /// The named external tool exited with the given code.
    ProcessFailed(String, i32),
    /// The `osimage.kind` of a manifest names no known kind.
    InvalidProjectKind(String),
    /// The named architecture is outside the supported set.
    UnsupportedArchitecture(String),
    /// The requested capacity cannot hold the minimal volume structure.
    ImageTooSmall,
    /// Storing a file would exceed the volume's data area or directory table.
    OutOfSpace,
    /// The artifact to copy into the image does not exist on the host.
    HostArtifactMissing(String),
}

} // verus!
