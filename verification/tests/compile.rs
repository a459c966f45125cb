use candle_kernels::compile::{
    check_compiled, command_line_of, compiler_command, output_file, source_file, ProcessOutput,
};
use candle_kernels::error::BuildError;

fn output(status: Option<i32>, stdout: &str, stderr: &str) -> ProcessOutput {
    ProcessOutput { status, stdout: stdout.to_string(), stderr: stderr.to_string() }
}

#[test]
fn files_of_a_kernel_unit() {
    assert_eq!(source_file("src", "affine"), "src/affine.cu");
    assert_eq!(output_file("/tmp/out", "affine"), "/tmp/out/affine.cubin");
    assert_eq!(source_file("", ""), "/.cu");
}

#[test]
fn command_without_extra_flags() {
    assert_eq!(
        compiler_command("src", "/tmp/out", "affine", "", "80"),
        vec![
            "nvcc",
            "--cubin",
            "-O3",
            "--use_fast_math",
            "-std=c++17",
            "--default-stream",
            "per-thread",
            "-Isrc",
            "-o",
            "/tmp/out/affine.cubin",
            "src/affine.cu",
            "-arch=sm_80",
        ]
    );
}

#[test]
fn extra_flags_appear_in_order() {
    let command = compiler_command("kernels", "out", "binary", "-DFOO -DBAR", "86");
    assert_eq!(
        command,
        vec![
            "nvcc",
            "--cubin",
            "-O3",
            "--use_fast_math",
            "-std=c++17",
            "--default-stream",
            "per-thread",
            "-Ikernels",
            "-o",
            "out/binary.cubin",
            "kernels/binary.cu",
            "-DFOO",
            "-DBAR",
            "-arch=sm_86",
        ]
    );
    let foo = command.iter().position(|a| a == "-DFOO").unwrap();
    let bar = command.iter().position(|a| a == "-DBAR").unwrap();
    assert!(foo < bar);
    let line = command_line_of(&command);
    assert!(line.find("-DFOO").unwrap() < line.find("-DBAR").unwrap());
}

#[test]
fn extra_flags_are_split_at_any_whitespace() {
    let command = compiler_command("k", "o", "u", "  -lineinfo\t-Xptxas  -v\n", "90");
    assert_eq!(&command[11..], &["-lineinfo", "-Xptxas", "-v", "-arch=sm_90"]);
    assert_eq!(command.len(), 15);
}

#[test]
fn command_line_joins_with_blanks() {
    let command = compiler_command("src", "out", "cast", "-g", "75");
    assert_eq!(
        command_line_of(&command),
        "nvcc --cubin -O3 --use_fast_math -std=c++17 --default-stream per-thread -Isrc -o out/cast.cubin src/cast.cu -g -arch=sm_75"
    );
    assert_eq!(command_line_of(&Vec::new()), "");
}

#[test]
fn exit_status_zero_is_success() {
    let command = compiler_command("src", "out", "cast", "", "75");
    assert_eq!(check_compiled(&command, output(Some(0), "", "")), Ok(()));
    assert_eq!(check_compiled(&command, output(Some(0), "note", "warning: unused")), Ok(()));
}

#[test]
fn other_outcomes_fail_with_command_and_streams() {
    let command = compiler_command("src", "out", "cast", "-g", "75");
    let line = "nvcc --cubin -O3 --use_fast_math -std=c++17 --default-stream per-thread -Isrc -o out/cast.cubin src/cast.cu -g -arch=sm_75";
    for status in [Some(1), Some(-1), Some(255), None] {
        assert_eq!(
            check_compiled(&command, output(status, "out text\n", "cast.cu(3): error: x\n")),
            Err(BuildError::CompilerFailed {
                command: line.to_string(),
                stdout: "out text\n".to_string(),
                stderr: "cast.cu(3): error: x\n".to_string(),
            })
        );
    }
}
