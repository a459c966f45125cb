use candle_kernels::arch::{
    is_capability_code, parse_probe, probe_command, resolve, ArchSource, TargetArch,
};
use candle_kernels::error::BuildError;

fn arch(code: &str, source: ArchSource) -> TargetArch {
    TargetArch { code: code.to_string(), source }
}

#[test]
fn override_wins_over_probe() {
    assert_eq!(resolve(Some("86"), Some("80")), Ok(arch("86", ArchSource::Override)));
    assert_eq!(resolve(Some("86"), Some("8.0\n")), Ok(arch("86", ArchSource::Override)));
    assert_eq!(resolve(Some("86"), None), Ok(arch("86", ArchSource::Override)));
    assert_eq!(resolve(Some("86"), Some("garbage")), Ok(arch("86", ArchSource::Override)));
}

#[test]
fn override_is_taken_as_given() {
    assert_eq!(resolve(Some("090"), None), Ok(arch("090", ArchSource::Override)));
    assert_eq!(resolve(Some("7"), Some("8.0")), Ok(arch("7", ArchSource::Override)));
}

#[test]
fn override_that_is_no_capability_fails_without_probing() {
    for value in ["", "8.6", "sm_86", "86 ", "+86", "eighty"] {
        assert_eq!(resolve(Some(value), Some("8.0\n")), Err(BuildError::NoArchitecture));
    }
}

#[test]
fn probe_decides_without_override() {
    assert_eq!(resolve(None, Some("8.0\n")), Ok(arch("80", ArchSource::Probe)));
    assert_eq!(resolve(None, Some("8.6")), Ok(arch("86", ArchSource::Probe)));
    assert_eq!(resolve(None, Some("9.0\n8.6\n")), Ok(arch("90", ArchSource::Probe)));
}

#[test]
fn nothing_to_go_by_is_an_error() {
    assert_eq!(resolve(None, None), Err(BuildError::NoArchitecture));
    assert_eq!(resolve(None, Some("")), Err(BuildError::NoArchitecture));
    assert_eq!(
        resolve(None, Some("NVIDIA-SMI has failed because it couldn't communicate\n")),
        Err(BuildError::NoArchitecture)
    );
}

#[test]
fn probe_output_is_stripped_of_dots() {
    assert_eq!(parse_probe("8.6"), Some("86".to_string()));
    assert_eq!(parse_probe("8.0\n"), Some("80".to_string()));
    assert_eq!(parse_probe("8.9\r\n"), Some("89".to_string()));
    assert_eq!(parse_probe("12.0\n8.6\n"), Some("120".to_string()));
    assert_eq!(parse_probe("75"), Some("75".to_string()));
}

#[test]
fn probe_noise_is_rejected() {
    for noise in ["", "\n", "\n8.6", ".", "...", "N/A", "8.6 ", " 8.6", "8,6", "compute_cap\n8.6\n", "8.6\r"]
    {
        assert_eq!(parse_probe(noise), None, "{:?}", noise);
    }
}

#[test]
fn capability_codes() {
    assert!(is_capability_code("80"));
    assert!(is_capability_code("5"));
    assert!(!is_capability_code(""));
    assert!(!is_capability_code("8.0"));
    assert!(!is_capability_code("sm80"));
}

#[test]
fn probe_command_asks_for_the_capability() {
    assert_eq!(
        probe_command(),
        vec!["nvidia-smi", "--query-gpu=compute_cap", "--format=csv,noheader"]
    );
}

#[test]
fn architectures_describe_themselves() {
    assert_eq!(
        arch("86", ArchSource::Override).describe(),
        "Using CUDA compute capability 86 from CUDA_COMPUTE_CAP"
    );
    assert_eq!(
        arch("80", ArchSource::Probe).describe(),
        "Using CUDA compute capability 80 detected by nvidia-smi"
    );
}
