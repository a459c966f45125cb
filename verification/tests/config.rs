use candle_kernels::config::{select_format, ModuleFormat};
use candle_kernels::error::BuildError;

#[test]
fn no_selector_selects_ptx() {
    assert_eq!(select_format(None), Ok(ModuleFormat::Ptx));
}

#[test]
fn selector_names_the_format() {
    assert_eq!(select_format(Some("ptx")), Ok(ModuleFormat::Ptx));
    assert_eq!(select_format(Some("cubin")), Ok(ModuleFormat::Cubin));
}

#[test]
fn selector_is_read_without_regard_to_case() {
    assert_eq!(select_format(Some("PTX")), Ok(ModuleFormat::Ptx));
    assert_eq!(select_format(Some("Cubin")), Ok(ModuleFormat::Cubin));
    assert_eq!(select_format(Some("cuBIN")), Ok(ModuleFormat::Cubin));
}

#[test]
fn other_selector_values_are_rejected_by_name() {
    for value in ["", "fatbin", "ptx ", " cubin", "cubin,ptx", "sass"] {
        assert_eq!(
            select_format(Some(value)),
            Err(BuildError::InvalidFormat { value: value.to_string() })
        );
    }
    assert_eq!(
        select_format(Some("FatBin")),
        Err(BuildError::InvalidFormat { value: "FatBin".to_string() })
    );
}

#[test]
fn formats_describe_themselves() {
    assert_eq!(ModuleFormat::Ptx.describe(), "Building CUDA kernels in PTX mode (default)");
    assert_eq!(ModuleFormat::Cubin.describe(), "Building CUDA kernels in CUBIN mode");
}
