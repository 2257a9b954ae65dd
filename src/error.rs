use vstd::prelude::*;

verus! {

/// What the external packaging tool reported: its exit code (`None` when it
/// was ended by a signal) and what it wrote to its two output streams.
#[derive(Debug, Clone, PartialEq, Eq)]
pub struct ToolOutput {
    pub status: Option<i32>,
    pub stdout: Vec<u8>,
    pub stderr: Vec<u8>,
}

/// Why a descriptor document does not describe a build system.
#[derive(Debug, Clone, PartialEq, Eq)]
pub enum SchemaProblem {
    /// The text is not a well-formed document; the parser's message.
    Syntax(String),
    /// The top level is not a table, or has no `build-system` key.
    MissingBuildSystem,
    /// `build-system` is present but is not a table.
    BuildSystemNotTable,
    /// `build-system` has no `requires` key.
    MissingRequires,
    /// `requires` is not an array whose items are all strings.
    RequiresNotStrings,
    /// `build-system` has no `build-backend` key.
    MissingBuildBackend,
    /// `build-backend` is not a string.
    BuildBackendNotString,
}

/// Every way of failing to build a source distribution or to load its
/// build descriptor.
#[derive(Debug)]
pub enum SdistError {
    /// The packaging tool could not be started.
    ToolInvocation(String),
    /// The packaging tool ran and did not succeed.
    ToolExecution(ToolOutput),
    /// The packaging tool's listing is not valid UTF-8.
    Encoding,
    /// The manifest path has no parent directory to resolve entries against.
    NoManifestDirectory,
    /// The listing does not hold the build descriptor file.
    MissingBuildDescriptor,
    /// The archive writer failed on the named entry.
    ArchiveWrite { entry: String, cause: String },
    /// The descriptor file could not be read.
    NotFound { path: String, cause: String },
    /// The descriptor file does not describe a build system.
    Schema(SchemaProblem),
}

} // verus!
