//! One run of the device compiler for one kernel unit: where its files are,
//! what the command line is, and how its outcome is read.

use vstd::prelude::*;

use crate::error::{BuildError, BuildErrorView};
use crate::text::{join, join_all, split_whitespace, tokens, views};

verus! {

/// The source file of kernel unit `unit`, in the kernel source directory.
pub open spec fn source_path(kernel_dir: Seq<char>, unit: Seq<char>) -> Seq<char> {
    kernel_dir + "/"@ + unit + ".cu"@
}

/// The binary that is compiled from kernel unit `unit`, in the directory
/// for build output.
pub open spec fn output_path(out_dir: Seq<char>, unit: Seq<char>) -> Seq<char> {
    out_dir + "/"@ + unit + ".cubin"@
}

/// The flags that every run of the device compiler gets: binary output,
/// optimisation, fast math, the language standard, one default stream for
/// each thread, and the kernel source directory as include path.
pub open spec fn fixed_flags(kernel_dir: Seq<char>) -> Seq<Seq<char>> {
    seq![
        "--cubin"@,
        "-O3"@,
        "--use_fast_math"@,
        "-std=c++17"@,
        "--default-stream"@,
        "per-thread"@,
        "-I"@ + kernel_dir,
    ]
}

/// The command that compiles one kernel unit: the program, the fixed flags,
/// the output and the source file, then the words of `extra_flags` as they
/// are given and in their order, then the target architecture.
pub open spec fn compile_command(
    kernel_dir: Seq<char>,
    out_dir: Seq<char>,
    unit: Seq<char>,
    extra_flags: Seq<char>,
    arch: Seq<char>,
) -> Seq<Seq<char>> {
    seq!["nvcc"@] + fixed_flags(kernel_dir) + seq![
        "-o"@,
        output_path(out_dir, unit),
        source_path(kernel_dir, unit),
    ] + tokens(extra_flags) + seq!["-arch=sm_"@ + arch]
}

/// A command as one line: its words with a blank between neighbours.
pub open spec fn command_line(command: Seq<Seq<char>>) -> Seq<char> {
    join(command, " "@)
}

/// How a process ended and what it printed.
#[derive(Debug, Clone, PartialEq, Eq)]
pub struct ProcessOutput {
    /// The exit status; none where the process was ended from outside.
    pub status: Option<i32>,
    pub stdout: String,
    pub stderr: String,
}

/// What a `ProcessOutput` holds.
pub struct ProcessOutputView {
    pub status: Option<i32>,
    pub stdout: Seq<char>,
    pub stderr: Seq<char>,
}

impl View for ProcessOutput {
    type V = ProcessOutputView;

    open spec fn view(&self) -> ProcessOutputView {
        ProcessOutputView { status: self.status, stdout: self.stdout@, stderr: self.stderr@ }
    }
}

impl ProcessOutputView {
    /// A process succeeded if it ended by itself with exit status 0.
    pub open spec fn succeeded(self) -> bool {
        self.status == Some(0i32)
    }
}

/// The failure that a run of `command` with outcome `output` amounts to, if
/// any: a run that did not succeed fails with the whole command line and
/// with both output streams as the process wrote them.
pub open spec fn compile_failure(
    command: Seq<Seq<char>>,
    output: ProcessOutputView,
) -> Option<BuildErrorView> {
    if output.succeeded() {
        None
    } else {
        Some(
            BuildErrorView::CompilerFailed {
                command: command_line(command),
                stdout: output.stdout,
                stderr: output.stderr,
            },
        )
    }
}

/// Kernel units of different names have different binaries and different
/// source files: no run of the compiler writes what another one wrote.
pub proof fn lemma_files_differ(dir: Seq<char>, unit: Seq<char>, other: Seq<char>)
    requires
        unit != other,
    ensures
        output_path(dir, unit) != output_path(dir, other),
        source_path(dir, unit) != source_path(dir, other),
{
    let head = dir + "/"@;
    if output_path(dir, unit) == output_path(dir, other) {
        let a = head + unit + ".cubin"@;
        let b = head + other + ".cubin"@;
        assert(unit.len() == other.len()) by {
            assert(a.len() == b.len());
        }
        assert forall|i: int| 0 <= i < unit.len() implies unit[i] == other[i] by {
            assert(a[head.len() + i] == unit[i]);
            assert(b[head.len() + i] == other[i]);
        }
        assert(unit =~= other);
    }
    if source_path(dir, unit) == source_path(dir, other) {
        let a = head + unit + ".cu"@;
        let b = head + other + ".cu"@;
        assert(unit.len() == other.len()) by {
            assert(a.len() == b.len());
        }
        assert forall|i: int| 0 <= i < unit.len() implies unit[i] == other[i] by {
            assert(a[head.len() + i] == unit[i]);
            assert(b[head.len() + i] == other[i]);
        }
        assert(unit =~= other);
    }
}

/// Where the parts of a compile command stand. The output file follows
/// `-o`, the source file follows it, the words of the extra flags come next,
/// all of them and in their order, and the target architecture is last.
pub proof fn lemma_command_parts(
    kernel_dir: Seq<char>,
    out_dir: Seq<char>,
    unit: Seq<char>,
    extra_flags: Seq<char>,
    arch: Seq<char>,
)
    ensures
        ({
            let command = compile_command(kernel_dir, out_dir, unit, extra_flags, arch);
            let extra = tokens(extra_flags);
            &&& command.len() == 12 + extra.len()
            &&& command[0] == "nvcc"@
            &&& command.subrange(1, 8) == fixed_flags(kernel_dir)
            &&& command[8] == "-o"@
            &&& command[9] == output_path(out_dir, unit)
            &&& command[10] == source_path(kernel_dir, unit)
            &&& command.subrange(11, 11 + extra.len() as int) == extra
            &&& command[11 + extra.len() as int] == "-arch=sm_"@ + arch
        }),
{
}

/// The source file of kernel unit `unit`.
pub fn source_file(kernel_dir: &str, unit: &str) -> (path: String)
    ensures
        path@ == source_path(kernel_dir@, unit@),
{
    let mut path = String::from_str(kernel_dir);
    path.append("/");
    path.append(unit);
    path.append(".cu");
    path
}

/// The binary that is compiled from kernel unit `unit`.
pub fn output_file(out_dir: &str, unit: &str) -> (path: String)
    ensures
        path@ == output_path(out_dir@, unit@),
{
    let mut path = String::from_str(out_dir);
    path.append("/");
    path.append(unit);
    path.append(".cubin");
    path
}

/// The command that compiles kernel unit `unit` for architecture `arch`.
pub fn compiler_command(
    kernel_dir: &str,
    out_dir: &str,
    unit: &str,
    extra_flags: &str,
    arch: &str,
) -> (command: Vec<String>)
    ensures
        views(command@) == compile_command(kernel_dir@, out_dir@, unit@, extra_flags@, arch@),
{
    let mut command: Vec<String> = Vec::new();
    command.push(String::from_str("nvcc"));
    command.push(String::from_str("--cubin"));
    command.push(String::from_str("-O3"));
    command.push(String::from_str("--use_fast_math"));
    command.push(String::from_str("-std=c++17"));
    command.push(String::from_str("--default-stream"));
    command.push(String::from_str("per-thread"));
    let mut headers = String::from_str("-I");
    headers.append(kernel_dir);
    command.push(headers);
    command.push(String::from_str("-o"));
    command.push(output_file(out_dir, unit));
    command.push(source_file(kernel_dir, unit));
    let ghost head = views(command@);
    assert(head == seq!["nvcc"@] + fixed_flags(kernel_dir@) + seq![
        "-o"@,
        output_path(out_dir@, unit@),
        source_path(kernel_dir@, unit@),
    ]);
    let extra = split_whitespace(extra_flags);
    let mut i: usize = 0;
    while i < extra.len()
        invariant
            i <= extra.len(),
            views(extra@) == tokens(extra_flags@),
            views(command@) == head + tokens(extra_flags@).take(i as int),
        decreases extra.len() - i,
    {
        let flag = extra[i].clone();
        assert(views(command@.push(flag)) == views(command@).push(flag@));
        assert(flag@ == views(extra@)[i as int]);
        command.push(flag);
        i += 1;
    }
    assert(tokens(extra_flags@).take(i as int) == tokens(extra_flags@));
    let mut target = String::from_str("-arch=sm_");
    target.append(arch);
    assert(views(command@.push(target)) == views(command@).push(target@));
    command.push(target);
    command
}

/// `command` as one line.
pub fn command_line_of(command: &Vec<String>) -> (line: String)
    ensures
        line@ == command_line(views(command@)),
{
    join_all(command, " ")
}

/// Reads the outcome of a run of `command`.
pub fn check_compiled(command: &Vec<String>, output: ProcessOutput) -> (r: Result<(), BuildError>)
    ensures
        match compile_failure(views(command@), output@) {
            None => r is Ok,
            Some(failure) => r matches Err(e) && e@ == failure,
        },
{
    let succeeded = match output.status {
        Some(code) => code == 0,
        None => false,
    };
    if succeeded {
        Ok(())
    } else {
        Err(
            BuildError::CompilerFailed {
                command: command_line_of(command),
                stdout: output.stdout,
                stderr: output.stderr,
            },
        )
    }
}

} // verus!
