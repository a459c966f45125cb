//! The target architecture of a build: taken from an explicit override, or
//! read from what the hardware query utility printed.

use vstd::prelude::*;

use crate::error::{BuildError, BuildErrorView};
use crate::text::{
    all_digits, first_line, first_line_of, is_all_digits, opt_str_view, remove_char, views, without,
};

verus! {

/// Where a target architecture was taken from.
#[derive(Debug, Clone, Copy, PartialEq, Eq, Hash, Structural)]
pub enum ArchSource {
    /// The explicit override.
    Override,
    /// The output of the hardware query utility.
    Probe,
}

/// A target architecture: a capability version written as digits, such as
/// `80` or `86`, and where it was taken from.
#[derive(Debug, Clone, PartialEq, Eq)]
pub struct TargetArch {
    pub code: String,
    pub source: ArchSource,
}

/// What a `TargetArch` holds.
pub struct TargetArchView {
    pub code: Seq<char>,
    pub source: ArchSource,
}

impl View for TargetArch {
    type V = TargetArchView;

    open spec fn view(&self) -> TargetArchView {
        TargetArchView { code: self.code@, source: self.source }
    }
}

impl TargetArchView {
    /// The line that records in the build log which architecture is built
    /// for and where it was taken from.
    pub open spec fn describe(self) -> Seq<char> {
        "Using CUDA compute capability "@ + self.code + match self.source {
            ArchSource::Override => " from CUDA_COMPUTE_CAP"@,
            ArchSource::Probe => " detected by nvidia-smi"@,
        }
    }
}

impl TargetArch {
    /// The line that records in the build log which architecture is built
    /// for and where it was taken from.
    pub fn describe(&self) -> (line: String)
        ensures
            line@ == self@.describe(),
    {
        let mut line = String::from_str("Using CUDA compute capability ");
        line.append(self.code.as_str());
        match self.source {
            ArchSource::Override => line.append(" from CUDA_COMPUTE_CAP"),
            ArchSource::Probe => line.append(" detected by nvidia-smi"),
        }
        line
    }
}

/// A capability version: one decimal digit or more, and nothing else.
pub open spec fn is_capability(code: Seq<char>) -> bool {
    code.len() > 0 && all_digits(code)
}

/// The capability version that the output of the hardware query utility
/// gives: its first line without the dots, if that is a capability version.
pub open spec fn probed(stdout: Seq<char>) -> Option<Seq<char>> {
    let code = without(first_line(stdout), '.');
    if is_capability(code) {
        Some(code)
    } else {
        None
    }
}

/// The target architecture of a build. An override decides alone: it is
/// taken as it stands if it is a capability version, and nothing else is
/// looked at. Without an override the output of the hardware query utility
/// decides, where there is any.
pub open spec fn resolved(
    override_value: Option<Seq<char>>,
    probe_stdout: Option<Seq<char>>,
) -> Option<TargetArchView> {
    match override_value {
        Some(code) => if is_capability(code) {
            Some(TargetArchView { code, source: ArchSource::Override })
        } else {
            None
        },
        None => match probe_stdout {
            Some(stdout) => match probed(stdout) {
                Some(code) => Some(TargetArchView { code, source: ArchSource::Probe }),
                None => None,
            },
            None => None,
        },
    }
}

/// The command that asks the hardware for its capability version: the
/// program, then its arguments.
pub open spec fn probe_command_spec() -> Seq<Seq<char>> {
    seq!["nvidia-smi"@, "--query-gpu=compute_cap"@, "--format=csv,noheader"@]
}

/// An override decides alone: with one, what the hardware query printed, or
/// whether it ran, makes no difference, and an override that is a
/// capability version is the target architecture, as it was given.
pub proof fn lemma_override_decides(
    code: Seq<char>,
    probe_stdout: Option<Seq<char>>,
    other_stdout: Option<Seq<char>>,
)
    ensures
        resolved(Some(code), probe_stdout) == resolved(Some(code), other_stdout),
        is_capability(code) ==> resolved(Some(code), probe_stdout) == Some(
            TargetArchView { code, source: ArchSource::Override },
        ),
        !is_capability(code) ==> resolved(Some(code), probe_stdout) is None,
{
}

/// Whether `code` is a capability version.
pub fn is_capability_code(code: &str) -> (b: bool)
    ensures
        b == is_capability(code@),
{
    !code.is_empty() && is_all_digits(code)
}

/// Reads the capability version from what the hardware query utility
/// printed.
pub fn parse_probe(stdout: &str) -> (r: Option<String>)
    ensures
        match probed(stdout@) {
            Some(code) => r matches Some(s) && s@ == code,
            None => r is None,
        },
{
    let line = first_line_of(stdout);
    let code = remove_char(line.as_str(), '.');
    if is_capability_code(code.as_str()) {
        Some(code)
    } else {
        None
    }
}

/// Resolves the target architecture from the override, where there is one,
/// and else from the output of the hardware query utility, where it ran.
pub fn resolve(override_value: Option<&str>, probe_stdout: Option<&str>) -> (r: Result<
    TargetArch,
    BuildError,
>)
    ensures
        match resolved(opt_str_view(override_value), opt_str_view(probe_stdout)) {
            Some(arch) => r matches Ok(a) && a@ == arch,
            None => r matches Err(e) && e@ == BuildErrorView::NoArchitecture,
        },
{
    match override_value {
        Some(code) => {
            if is_capability_code(code) {
                Ok(TargetArch { code: String::from_str(code), source: ArchSource::Override })
            } else {
                Err(BuildError::NoArchitecture)
            }
        },
        None => match probe_stdout {
            Some(stdout) => match parse_probe(stdout) {
                Some(code) => Ok(TargetArch { code, source: ArchSource::Probe }),
                None => Err(BuildError::NoArchitecture),
            },
            None => Err(BuildError::NoArchitecture),
        },
    }
}

/// The command that asks the hardware for its capability version.
pub fn probe_command() -> (command: Vec<String>)
    ensures
        views(command@) == probe_command_spec(),
{
    let mut command: Vec<String> = Vec::new();
    command.push(String::from_str("nvidia-smi"));
    command.push(String::from_str("--query-gpu=compute_cap"));
    command.push(String::from_str("--format=csv,noheader"));
    assert(views(command@) == probe_command_spec());
    command
}

} // verus!
