//! Kernel modules for GPU compute kernels: the catalog of modules and the
//! handle through which a host program reads one, and the build that
//! compiles the kernel sources into modules of one of two formats.

pub mod arch;
pub mod bindings;
pub mod compile;
pub mod config;
pub mod driver;
pub mod error;
pub mod registry;
pub mod runs;
pub mod text;

pub use registry::{handles, module_index, Id, Module, ModuleData, UsageError, ALL_IDS};
