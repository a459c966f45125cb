//! The ways in which a build ends without its modules.

use vstd::prelude::*;

use crate::text::{join, join_all, views};

verus! {

/// Why a build was given up. Each of them ends the build at once.
#[derive(Debug, Clone, PartialEq, Eq)]
pub enum BuildError {
    /// The format selector holds a value that names no format.
    InvalidFormat { value: String },
    /// No target architecture: the override is no capability version, or
    /// there is none and the hardware query gave none.
    NoArchitecture,
    /// A kernel unit of the catalog has no source file.
    MissingSource { path: String, catalog: Vec<String> },
    /// The device compiler could not be started.
    CompilerNotRun { reason: String },
    /// The device compiler ran and reported failure.
    CompilerFailed { command: String, stdout: String, stderr: String },
    /// The binding file could not be created or written.
    BindingsNotWritten { path: String, reason: String },
    /// The external builder failed.
    DelegateFailed { reason: String },
}

/// What a `BuildError` holds.
pub enum BuildErrorView {
    InvalidFormat { value: Seq<char> },
    NoArchitecture,
    MissingSource { path: Seq<char>, catalog: Seq<Seq<char>> },
    CompilerNotRun { reason: Seq<char> },
    CompilerFailed { command: Seq<char>, stdout: Seq<char>, stderr: Seq<char> },
    BindingsNotWritten { path: Seq<char>, reason: Seq<char> },
    DelegateFailed { reason: Seq<char> },
}

impl View for BuildError {
    type V = BuildErrorView;

    open spec fn view(&self) -> BuildErrorView {
        match *self {
            BuildError::InvalidFormat { value } => BuildErrorView::InvalidFormat { value: value@ },
            BuildError::NoArchitecture => BuildErrorView::NoArchitecture,
            BuildError::MissingSource { path, catalog } => BuildErrorView::MissingSource {
                path: path@,
                catalog: views(catalog@),
            },
            BuildError::CompilerNotRun { reason } => BuildErrorView::CompilerNotRun {
                reason: reason@,
            },
            BuildError::CompilerFailed { command, stdout, stderr } => BuildErrorView::CompilerFailed {
                command: command@,
                stdout: stdout@,
                stderr: stderr@,
            },
            BuildError::BindingsNotWritten { path, reason } => BuildErrorView::BindingsNotWritten {
                path: path@,
                reason: reason@,
            },
            BuildError::DelegateFailed { reason } => BuildErrorView::DelegateFailed {
                reason: reason@,
            },
        }
    }
}

/// The text that reports `e`. It names what the error holds, in full: the
/// rejected value, the missing file and the whole catalog, the command line
/// and both output streams of a failed compiler run.
pub open spec fn message_of(e: BuildErrorView) -> Seq<char> {
    match e {
        BuildErrorView::InvalidFormat { value } => "Invalid CANDLE_CUDA_MODULE_FORMAT: '"@ + value
            + "'. Valid values: 'ptx' or 'cubin'"@,
        BuildErrorView::NoArchitecture =>
            "Could not determine the CUDA compute capability. Set CUDA_COMPUTE_CAP to the capability of the target GPU, written without the dot: 75 (Turing), 80 or 86 (Ampere), 89 (Ada), 90 (Hopper). The value of each GPU is listed at https://developer.nvidia.com/cuda-gpus"@,
        BuildErrorView::MissingSource { path, catalog } => "Kernel source not found: "@ + path
            + "\nExpected kernels: "@ + join(catalog, ", "@),
        BuildErrorView::CompilerNotRun { reason } => "Failed to run nvcc: "@ + reason
            + "\nInstall the CUDA toolkit and make sure that nvcc is on the PATH."@,
        BuildErrorView::CompilerFailed { command, stdout, stderr } => "nvcc failed.\nCommand: "@
            + command + "\nstdout:\n"@ + stdout + "\nstderr:\n"@ + stderr,
        BuildErrorView::BindingsNotWritten { path, reason } => "Failed to write "@ + path + ": "@
            + reason,
        BuildErrorView::DelegateFailed { reason } => "Failed to build PTX modules: "@ + reason,
    }
}

impl BuildError {
    /// The text that reports the error.
    pub fn message(&self) -> (r: String)
        ensures
            r@ == message_of(self@),
    {
        match self {
            BuildError::InvalidFormat { value } => {
                let mut r = String::from_str("Invalid CANDLE_CUDA_MODULE_FORMAT: '");
                r.append(value.as_str());
                r.append("'. Valid values: 'ptx' or 'cubin'");
                r
            },
            BuildError::NoArchitecture => String::from_str(
                "Could not determine the CUDA compute capability. Set CUDA_COMPUTE_CAP to the capability of the target GPU, written without the dot: 75 (Turing), 80 or 86 (Ampere), 89 (Ada), 90 (Hopper). The value of each GPU is listed at https://developer.nvidia.com/cuda-gpus",
            ),
            BuildError::MissingSource { path, catalog } => {
                let mut r = String::from_str("Kernel source not found: ");
                r.append(path.as_str());
                r.append("\nExpected kernels: ");
                let listed = join_all(catalog, ", ");
                r.append(listed.as_str());
                r
            },
            BuildError::CompilerNotRun { reason } => {
                let mut r = String::from_str("Failed to run nvcc: ");
                r.append(reason.as_str());
                r.append("\nInstall the CUDA toolkit and make sure that nvcc is on the PATH.");
                r
            },
            BuildError::CompilerFailed { command, stdout, stderr } => {
                let mut r = String::from_str("nvcc failed.\nCommand: ");
                r.append(command.as_str());
                r.append("\nstdout:\n");
                r.append(stdout.as_str());
                r.append("\nstderr:\n");
                r.append(stderr.as_str());
                r
            },
            BuildError::BindingsNotWritten { path, reason } => {
                let mut r = String::from_str("Failed to write ");
                r.append(path.as_str());
                r.append(": ");
                r.append(reason.as_str());
                r
            },
            BuildError::DelegateFailed { reason } => {
                let mut r = String::from_str("Failed to build PTX modules: ");
                r.append(reason.as_str());
                r
            },
        }
    }
}

} // verus!
