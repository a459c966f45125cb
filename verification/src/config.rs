//! The choice between the two module formats.

use vstd::prelude::*;

use crate::error::{BuildError, BuildErrorView};
use crate::text::{lower, opt_str_view, to_lower};

verus! {

/// Format in which the kernel modules are built.
#[derive(Debug, Clone, Copy, PartialEq, Eq, Hash, Structural)]
pub enum ModuleFormat {
    /// Intermediate representation: built by the external builder for all
    /// kernel units at once, compiled for the device when a module is loaded.
    Ptx,
    /// Binary for one architecture: built by one run of the device compiler
    /// for each kernel unit.
    Cubin,
}

/// The format that a selector value names. No value selects `Ptx`; `ptx` and
/// `cubin`, in any mix of upper and lower case, select the two formats;
/// anything else names none.
pub open spec fn format_of(value: Option<Seq<char>>) -> Option<ModuleFormat> {
    match value {
        None => Some(ModuleFormat::Ptx),
        Some(v) => if lower(v) == "ptx"@ {
            Some(ModuleFormat::Ptx)
        } else if lower(v) == "cubin"@ {
            Some(ModuleFormat::Cubin)
        } else {
            None
        },
    }
}

impl ModuleFormat {
    /// The line that records in the build log which format is built.
    pub open spec fn spec_describe(self) -> Seq<char> {
        match self {
            ModuleFormat::Ptx => "Building CUDA kernels in PTX mode (default)"@,
            ModuleFormat::Cubin => "Building CUDA kernels in CUBIN mode"@,
        }
    }

    /// The line that records in the build log which format is built.
    pub fn describe(self) -> (line: String)
        ensures
            line@ == self.spec_describe(),
    {
        match self {
            ModuleFormat::Ptx => String::from_str("Building CUDA kernels in PTX mode (default)"),
            ModuleFormat::Cubin => String::from_str("Building CUDA kernels in CUBIN mode"),
        }
    }
}

/// Reads the format selector. A value that names no format is reported as it
/// was given.
pub fn select_format(value: Option<&str>) -> (r: Result<ModuleFormat, BuildError>)
    ensures
        match format_of(opt_str_view(value)) {
            Some(format) => r == Ok::<ModuleFormat, BuildError>(format),
            None => r matches Err(e) && e@ == (BuildErrorView::InvalidFormat {
                value: value.unwrap()@,
            }),
        },
{
    match value {
        None => Ok(ModuleFormat::Ptx),
        Some(v) => {
            let low = to_lower(v);
            if low.eq(&String::from_str("ptx")) {
                Ok(ModuleFormat::Ptx)
            } else if low.eq(&String::from_str("cubin")) {
                Ok(ModuleFormat::Cubin)
            } else {
                Err(BuildError::InvalidFormat { value: String::from_str(v) })
            }
        },
    }
}

} // verus!
