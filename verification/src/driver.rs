//! The build as a state machine. The machine decides; whoever runs it performs
//! what the machine asks for (`Build::pending`) and reports what came of it
//! (`Build::advance`). An event that does not answer what is pending changes
//! nothing.

use vstd::prelude::*;

use crate::arch::{
    is_capability, probe_command, probe_command_spec, resolve, resolved, TargetArch, TargetArchView,
};
use crate::bindings::{bindings_text, generate};
use crate::compile::{
    check_compiled, compile_command, compile_failure, compiler_command, source_file, source_path,
    ProcessOutput, ProcessOutputView,
};
use crate::config::{format_of, select_format, ModuleFormat};
use crate::error::{BuildError, BuildErrorView};
use crate::text::{copy_all, opt_str, opt_view, views};

verus! {

/// What a build is given.
#[derive(Debug, Clone, PartialEq, Eq)]
pub struct Config {
    /// The format selector, where it is set.
    pub format: Option<String>,
    /// The override of the target architecture, where it is set.
    pub arch: Option<String>,
    /// More flags for the device compiler, separated by whitespace.
    pub extra_flags: Option<String>,
    /// The directory of the kernel sources.
    pub kernel_dir: String,
    /// The directory for build output.
    pub out_dir: String,
    /// The names of the kernel units, in catalog order.
    pub catalog: Vec<String>,
}

/// What a `Config` holds.
pub struct ConfigView {
    pub format: Option<Seq<char>>,
    pub arch: Option<Seq<char>>,
    pub extra_flags: Option<Seq<char>>,
    pub kernel_dir: Seq<char>,
    pub out_dir: Seq<char>,
    pub catalog: Seq<Seq<char>>,
}

impl View for Config {
    type V = ConfigView;

    open spec fn view(&self) -> ConfigView {
        ConfigView {
            format: opt_view(self.format),
            arch: opt_view(self.arch),
            extra_flags: opt_view(self.extra_flags),
            kernel_dir: self.kernel_dir@,
            out_dir: self.out_dir@,
            catalog: views(self.catalog@),
        }
    }
}

impl ConfigView {
    /// The extra flags; none where none are set.
    pub open spec fn flags(self) -> Seq<char> {
        match self.extra_flags {
            Some(flags) => flags,
            None => Seq::empty(),
        }
    }

    /// The binding file of a build in `format`.
    pub open spec fn bindings_path(self, format: ModuleFormat) -> Seq<char> {
        match format {
            ModuleFormat::Ptx => self.out_dir + "/ptx.rs"@,
            ModuleFormat::Cubin => self.out_dir + "/cubin.rs"@,
        }
    }

    /// The source file of kernel unit `i`.
    pub open spec fn source(self, i: int) -> Seq<char> {
        source_path(self.kernel_dir, self.catalog[i])
    }

    /// The source files of all kernel units, in catalog order.
    pub open spec fn sources(self) -> Seq<Seq<char>> {
        Seq::new(self.catalog.len(), |i: int| self.source(i))
    }

    /// The phase that turns to kernel unit `i`: its check, or the writing of
    /// the bindings once every unit is compiled.
    pub open spec fn unit_phase(self, i: int) -> Phase {
        if i < self.catalog.len() {
            Phase::Checking(i as usize)
        } else {
            Phase::Writing
        }
    }
}

/// Where a build stands.
#[derive(Debug, Clone, Copy, PartialEq, Eq, Structural)]
pub enum Phase {
    /// The external builder is to build all kernel units.
    Delegating,
    /// The hardware is to be asked for its capability version.
    Probing,
    /// The source file of the kernel unit of this index is to be looked for.
    Checking(usize),
    /// The kernel unit of this index is to be compiled.
    Compiling(usize),
    /// The binding file is to be written.
    Writing,
    /// The build is done.
    Finished,
    /// The build was given up.
    Failed,
}

/// What the machine asks for.
#[derive(Debug, Clone, PartialEq, Eq)]
pub enum Action {
    /// Have the external builder build all kernel units and write its
    /// bindings to this file.
    Delegate { bindings_path: String },
    /// Run this command and report what it printed.
    Probe { command: Vec<String> },
    /// Report whether this file exists.
    CheckSource { path: String },
    /// Run this command and report how it ended.
    Compile { command: Vec<String> },
    /// Write this text to this file.
    WriteBindings { path: String, text: String },
    /// Nothing is left to do.
    Finish,
    /// End the build with the error that `Build::failure` gives.
    Abort,
}

/// What an `Action` holds.
pub enum ActionView {
    Delegate { bindings_path: Seq<char> },
    Probe { command: Seq<Seq<char>> },
    CheckSource { path: Seq<char> },
    Compile { command: Seq<Seq<char>> },
    WriteBindings { path: Seq<char>, text: Seq<char> },
    Finish,
    Abort,
}

impl View for Action {
    type V = ActionView;

    open spec fn view(&self) -> ActionView {
        match *self {
            Action::Delegate { bindings_path } => ActionView::Delegate {
                bindings_path: bindings_path@,
            },
            Action::Probe { command } => ActionView::Probe { command: views(command@) },
            Action::CheckSource { path } => ActionView::CheckSource { path: path@ },
            Action::Compile { command } => ActionView::Compile { command: views(command@) },
            Action::WriteBindings { path, text } => ActionView::WriteBindings {
                path: path@,
                text: text@,
            },
            Action::Finish => ActionView::Finish,
            Action::Abort => ActionView::Abort,
        }
    }
}

impl ActionView {
    /// The format whose strategy asks for this action; none for the two
    /// actions that end a build.
    pub open spec fn strategy(self) -> Option<ModuleFormat> {
        match self {
            ActionView::Delegate { .. } => Some(ModuleFormat::Ptx),
            ActionView::Probe { .. } => Some(ModuleFormat::Cubin),
            ActionView::CheckSource { .. } => Some(ModuleFormat::Cubin),
            ActionView::Compile { .. } => Some(ModuleFormat::Cubin),
            ActionView::WriteBindings { .. } => Some(ModuleFormat::Cubin),
            ActionView::Finish => None,
            ActionView::Abort => None,
        }
    }
}

/// What came of an action.
#[derive(Debug, Clone, PartialEq, Eq)]
pub enum Event {
    /// The external builder ended: well, or with this error.
    Delegated { error: Option<String> },
    /// The hardware query was tried: it printed this, or it could not be
    /// run or read.
    Probed { stdout: Option<String> },
    /// The source file was looked for.
    SourceChecked { exists: bool },
    /// The device compiler ran.
    CompilerRan { output: ProcessOutput },
    /// The device compiler could not be started.
    CompilerNotRun { reason: String },
    /// The binding file was written, or could not be, with this error.
    BindingsWritten { error: Option<String> },
}

/// What an `Event` holds.
pub enum EventView {
    Delegated { error: Option<Seq<char>> },
    Probed { stdout: Option<Seq<char>> },
    SourceChecked { exists: bool },
    CompilerRan { output: ProcessOutputView },
    CompilerNotRun { reason: Seq<char> },
    BindingsWritten { error: Option<Seq<char>> },
}

impl View for Event {
    type V = EventView;

    open spec fn view(&self) -> EventView {
        match *self {
            Event::Delegated { error } => EventView::Delegated { error: opt_view(error) },
            Event::Probed { stdout } => EventView::Probed { stdout: opt_view(stdout) },
            Event::SourceChecked { exists } => EventView::SourceChecked { exists },
            Event::CompilerRan { output } => EventView::CompilerRan { output: output@ },
            Event::CompilerNotRun { reason } => EventView::CompilerNotRun { reason: reason@ },
            Event::BindingsWritten { error } => EventView::BindingsWritten {
                error: opt_view(error),
            },
        }
    }
}

/// What a `Build` holds.
pub struct BuildView {
    pub config: ConfigView,
    /// The format that is built; none where the selector names none.
    pub format: Option<ModuleFormat>,
    pub phase: Phase,
    /// The target architecture, once it is resolved.
    pub arch: Option<TargetArchView>,
    /// Why the build was given up, if it was.
    pub failure: Option<BuildErrorView>,
}

impl BuildView {
    /// This build in another phase.
    pub open spec fn at(self, phase: Phase) -> BuildView {
        BuildView {
            config: self.config,
            format: self.format,
            phase,
            arch: self.arch,
            failure: self.failure,
        }
    }

    /// This build given up for `error`.
    pub open spec fn failed(self, error: BuildErrorView) -> BuildView {
        BuildView {
            config: self.config,
            format: self.format,
            phase: Phase::Failed,
            arch: self.arch,
            failure: Some(error),
        }
    }

    /// This build with its target architecture resolved, about to turn to
    /// the first kernel unit.
    pub open spec fn targeting(self, arch: TargetArchView) -> BuildView {
        BuildView {
            config: self.config,
            format: self.format,
            phase: self.config.unit_phase(0),
            arch: Some(arch),
            failure: self.failure,
        }
    }

    /// The command that compiles kernel unit `i`.
    pub open spec fn unit_command(self, i: int) -> Seq<Seq<char>> {
        compile_command(
            self.config.kernel_dir,
            self.config.out_dir,
            self.config.catalog[i],
            self.config.flags(),
            self.arch.unwrap().code,
        )
    }

    /// What holds of every build: the format is the one that the selector
    /// names, a phase of one strategy occurs only under that strategy's
    /// format, a kernel unit that is worked on is in the catalog and has an
    /// architecture to be compiled for, and a build has a failure exactly if
    /// it was given up.
    pub open spec fn wf(self) -> bool {
        &&& self.config.catalog.len() <= usize::MAX
        &&& self.format == format_of(self.config.format)
        &&& self.failure is Some <==> self.phase is Failed
        &&& self.arch matches Some(arch) ==> is_capability(arch.code)
        &&& match self.phase {
            Phase::Delegating => self.format == Some(ModuleFormat::Ptx),
            Phase::Probing => self.format == Some(ModuleFormat::Cubin) && self.arch is None,
            Phase::Checking(i) => self.format == Some(ModuleFormat::Cubin) && self.arch is Some
                && i < self.config.catalog.len(),
            Phase::Compiling(i) => self.format == Some(ModuleFormat::Cubin) && self.arch is Some
                && i < self.config.catalog.len(),
            Phase::Writing => self.format == Some(ModuleFormat::Cubin) && self.arch is Some,
            Phase::Finished => self.format is Some,
            Phase::Failed => true,
        }
    }
}

/// The build at its start. A selector that names no format ends it at once.
/// The format `Ptx` leaves everything to the external builder. The format
/// `Cubin` needs the target architecture first: an override decides it here,
/// and without one the hardware is asked.
pub open spec fn initial(config: ConfigView) -> BuildView {
    let start = BuildView {
        config,
        format: format_of(config.format),
        phase: Phase::Delegating,
        arch: None,
        failure: None,
    };
    match format_of(config.format) {
        None => start.failed(BuildErrorView::InvalidFormat { value: config.format.unwrap() }),
        Some(ModuleFormat::Ptx) => start,
        Some(ModuleFormat::Cubin) => match config.arch {
            Some(code) => match resolved(Some(code), None) {
                Some(arch) => start.targeting(arch),
                None => start.failed(BuildErrorView::NoArchitecture),
            },
            None => start.at(Phase::Probing),
        },
    }
}

/// The build after `event`. Each kernel unit is checked, then compiled, in
/// catalog order; the first thing that goes wrong ends the build.
pub open spec fn next(s: BuildView, event: EventView) -> BuildView {
    match (s.phase, event) {
        (Phase::Delegating, EventView::Delegated { error }) => match error {
            None => s.at(Phase::Finished),
            Some(reason) => s.failed(BuildErrorView::DelegateFailed { reason }),
        },
        (Phase::Probing, EventView::Probed { stdout }) => match resolved(None, stdout) {
            Some(arch) => s.targeting(arch),
            None => s.failed(BuildErrorView::NoArchitecture),
        },
        (Phase::Checking(i), EventView::SourceChecked { exists }) => if exists {
            s.at(Phase::Compiling(i))
        } else {
            s.failed(
                BuildErrorView::MissingSource {
                    path: s.config.source(i as int),
                    catalog: s.config.catalog,
                },
            )
        },
        (Phase::Compiling(i), EventView::CompilerRan { output }) => match compile_failure(
            s.unit_command(i as int),
            output,
        ) {
            None => s.at(s.config.unit_phase(i + 1)),
            Some(failure) => s.failed(failure),
        },
        (Phase::Compiling(i), EventView::CompilerNotRun { reason }) => s.failed(
            BuildErrorView::CompilerNotRun { reason },
        ),
        (Phase::Writing, EventView::BindingsWritten { error }) => match error {
            None => s.at(Phase::Finished),
            Some(reason) => s.failed(
                BuildErrorView::BindingsNotWritten {
                    path: s.config.bindings_path(ModuleFormat::Cubin),
                    reason,
                },
            ),
        },
        _ => s,
    }
}

/// What the build asks for.
pub open spec fn pending(s: BuildView) -> ActionView {
    match s.phase {
        Phase::Delegating => ActionView::Delegate {
            bindings_path: s.config.bindings_path(ModuleFormat::Ptx),
        },
        Phase::Probing => ActionView::Probe { command: probe_command_spec() },
        Phase::Checking(i) => ActionView::CheckSource { path: s.config.source(i as int) },
        Phase::Compiling(i) => ActionView::Compile { command: s.unit_command(i as int) },
        Phase::Writing => ActionView::WriteBindings {
            path: s.config.bindings_path(ModuleFormat::Cubin),
            text: bindings_text(s.config.catalog),
        },
        Phase::Finished => ActionView::Finish,
        Phase::Failed => ActionView::Abort,
    }
}

/// The build after each of `events` in turn.
pub open spec fn run(s: BuildView, events: Seq<EventView>) -> BuildView
    decreases events.len(),
{
    if events.len() == 0 {
        s
    } else {
        next(run(s, events.drop_last()), events.last())
    }
}

/// The lines of the build log: which format is built, and, once it is
/// resolved, which architecture is built for and where it was taken from.
pub open spec fn trace_of(s: BuildView) -> Seq<Seq<char>> {
    let strategy = match s.format {
        Some(format) => seq![format.spec_describe()],
        None => Seq::empty(),
    };
    let target = match s.arch {
        Some(arch) => seq![arch.describe()],
        None => Seq::empty(),
    };
    strategy + target
}

/// The files whose change calls for a new build: under the format `Cubin`
/// the source file of each kernel unit, in catalog order. Under `Ptx` the
/// external builder keeps track of them.
pub open spec fn watched_of(s: BuildView) -> Seq<Seq<char>> {
    if s.format == Some(ModuleFormat::Cubin) {
        s.config.sources()
    } else {
        Seq::empty()
    }
}

/// A build of the kernel modules.
pub struct Build {
    config: Config,
    format: Option<ModuleFormat>,
    phase: Phase,
    arch: Option<TargetArch>,
    failure: Option<BuildError>,
}

impl View for Build {
    type V = BuildView;

    closed spec fn view(&self) -> BuildView {
        BuildView {
            config: self.config@,
            format: self.format,
            phase: self.phase,
            arch: match self.arch {
                Some(arch) => Some(arch@),
                None => None,
            },
            failure: match self.failure {
                Some(error) => Some(error@),
                None => None,
            },
        }
    }
}

impl Build {
    #[verifier::type_invariant]
    spec fn valid(self) -> bool {
        self@.wf()
    }

    fn at(self, phase: Phase) -> (r: Build)
        requires
            self@.at(phase).wf(),
        ensures
            r@ == self@.at(phase),
    {
        Build {
            config: self.config,
            format: self.format,
            phase,
            arch: self.arch,
            failure: self.failure,
        }
    }

    fn failed(self, error: BuildError) -> (r: Build)
        requires
            self@.wf(),
        ensures
            r@ == self@.failed(error@),
    {
        Build {
            config: self.config,
            format: self.format,
            phase: Phase::Failed,
            arch: self.arch,
            failure: Some(error),
        }
    }

    fn targeting(self, arch: TargetArch) -> (r: Build)
        requires
            self@.wf(),
            self@.format == Some(ModuleFormat::Cubin),
            self@.failure is None,
            is_capability(arch@.code),
        ensures
            r@ == self@.targeting(arch@),
    {
        let phase = if 0 < self.config.catalog.len() {
            Phase::Checking(0)
        } else {
            Phase::Writing
        };
        Build {
            config: self.config,
            format: self.format,
            phase,
            arch: Some(arch),
            failure: self.failure,
        }
    }

    /// The build of `config`, at its start.
    pub fn new(config: Config) -> (build: Build)
        ensures
            build@ == initial(config@),
            build@.wf(),
    {
        assert(config@.catalog.len() == config.catalog.len());
        match select_format(opt_str(&config.format)) {
            Err(error) => Build {
                config,
                format: None,
                phase: Phase::Failed,
                arch: None,
                failure: Some(error),
            },
            Ok(ModuleFormat::Ptx) => Build {
                config,
                format: Some(ModuleFormat::Ptx),
                phase: Phase::Delegating,
                arch: None,
                failure: None,
            },
            Ok(ModuleFormat::Cubin) => {
                let given = match opt_str(&config.arch) {
                    Some(code) => Some(resolve(Some(code), None)),
                    None => None,
                };
                let start = Build {
                    config,
                    format: Some(ModuleFormat::Cubin),
                    phase: Phase::Probing,
                    arch: None,
                    failure: None,
                };
                match given {
                    Some(Ok(arch)) => start.targeting(arch),
                    Some(Err(error)) => start.failed(error),
                    None => start,
                }
            },
        }
    }

    /// Takes in what came of the pending action.
    pub fn advance(self, event: Event) -> (build: Build)
        ensures
            build@ == next(self@, event@),
            build@.wf(),
    {
        proof {
            use_type_invariant(&self);
        }
        match self.phase {
            Phase::Delegating => match event {
                Event::Delegated { error } => match error {
                    None => self.at(Phase::Finished),
                    Some(reason) => self.failed(BuildError::DelegateFailed { reason }),
                },
                _ => self,
            },
            Phase::Probing => match event {
                Event::Probed { stdout } => match resolve(None, opt_str(&stdout)) {
                    Ok(arch) => self.targeting(arch),
                    Err(error) => self.failed(error),
                },
                _ => self,
            },
            Phase::Checking(i) => match event {
                Event::SourceChecked { exists } => if exists {
                    self.at(Phase::Compiling(i))
                } else {
                    let path = source_file(
                        self.config.kernel_dir.as_str(),
                        self.config.catalog[i].as_str(),
                    );
                    let catalog = copy_all(&self.config.catalog);
                    self.failed(BuildError::MissingSource { path, catalog })
                },
                _ => self,
            },
            Phase::Compiling(i) => match event {
                Event::CompilerRan { output } => {
                    let command = self.unit_command(i);
                    match check_compiled(&command, output) {
                        Ok(()) => {
                            let phase = if i + 1 < self.config.catalog.len() {
                                Phase::Checking(i + 1)
                            } else {
                                Phase::Writing
                            };
                            self.at(phase)
                        },
                        Err(error) => self.failed(error),
                    }
                },
                Event::CompilerNotRun { reason } => self.failed(
                    BuildError::CompilerNotRun { reason },
                ),
                _ => self,
            },
            Phase::Writing => match event {
                Event::BindingsWritten { error } => match error {
                    None => self.at(Phase::Finished),
                    Some(reason) => {
                        let path = self.bindings_file(ModuleFormat::Cubin);
                        self.failed(BuildError::BindingsNotWritten { path, reason })
                    },
                },
                _ => self,
            },
            Phase::Finished => self,
            Phase::Failed => self,
        }
    }

    /// What the build asks for.
    pub fn pending(&self) -> (action: Action)
        ensures
            action@ == pending(self@),
    {
        proof {
            use_type_invariant(self);
        }
        match self.phase {
            Phase::Delegating => Action::Delegate {
                bindings_path: self.bindings_file(ModuleFormat::Ptx),
            },
            Phase::Probing => Action::Probe { command: probe_command() },
            Phase::Checking(i) => Action::CheckSource {
                path: source_file(self.config.kernel_dir.as_str(), self.config.catalog[i].as_str()),
            },
            Phase::Compiling(i) => Action::Compile { command: self.unit_command(i) },
            Phase::Writing => Action::WriteBindings {
                path: self.bindings_file(ModuleFormat::Cubin),
                text: generate(&self.config.catalog),
            },
            Phase::Finished => Action::Finish,
            Phase::Failed => Action::Abort,
        }
    }

    fn bindings_file(&self, format: ModuleFormat) -> (path: String)
        ensures
            path@ == self@.config.bindings_path(format),
    {
        let mut path = self.config.out_dir.clone();
        match format {
            ModuleFormat::Ptx => path.append("/ptx.rs"),
            ModuleFormat::Cubin => path.append("/cubin.rs"),
        }
        path
    }

    fn unit_command(&self, i: usize) -> (command: Vec<String>)
        requires
            i < self@.config.catalog.len(),
            self@.arch is Some,
        ensures
            views(command@) == self@.unit_command(i as int),
    {
        let flags = match &self.config.extra_flags {
            Some(flags) => flags.as_str(),
            None => "",
        };
        proof {
            reveal_strlit("");
            assert(""@ == Seq::<char>::empty());
        }
        let arch = match &self.arch {
            Some(arch) => arch.code.as_str(),
            None => vstd::pervasive::unreached(),
        };
        compiler_command(
            self.config.kernel_dir.as_str(),
            self.config.out_dir.as_str(),
            self.config.catalog[i].as_str(),
            flags,
            arch,
        )
    }

    /// Where the build stands.
    pub fn phase(&self) -> (phase: Phase)
        ensures
            phase == self@.phase,
    {
        self.phase
    }

    /// The format that is built; none where the selector names none.
    pub fn format(&self) -> (format: Option<ModuleFormat>)
        ensures
            format == self@.format,
            format == format_of(self@.config.format),
    {
        proof {
            use_type_invariant(self);
        }
        self.format
    }

    /// The target architecture, once it is resolved.
    pub fn arch(&self) -> (arch: Option<&TargetArch>)
        ensures
            match self@.arch {
                Some(view) => arch matches Some(a) && a@ == view,
                None => arch is None,
            },
    {
        self.arch.as_ref()
    }

    /// Why the build was given up: an error exactly if the phase is `Failed`.
    pub fn failure(&self) -> (failure: Option<&BuildError>)
        ensures
            match self@.failure {
                Some(view) => failure matches Some(e) && e@ == view,
                None => failure is None,
            },
            failure is Some <==> self@.phase is Failed,
    {
        proof {
            use_type_invariant(self);
        }
        self.failure.as_ref()
    }

    /// The lines of the build log so far.
    pub fn trace(&self) -> (lines: Vec<String>)
        ensures
            views(lines@) == trace_of(self@),
    {
        let mut lines: Vec<String> = Vec::new();
        match self.format {
            Some(format) => {
                lines.push(format.describe());
            },
            None => {},
        }
        match &self.arch {
            Some(arch) => {
                lines.push(arch.describe());
            },
            None => {},
        }
        assert(views(lines@) == trace_of(self@));
        lines
    }

    /// The files whose change calls for a new build.
    pub fn watched(&self) -> (files: Vec<String>)
        ensures
            views(files@) == watched_of(self@),
    {
        let mut files: Vec<String> = Vec::new();
        match self.format {
            Some(ModuleFormat::Cubin) => {
                let mut i: usize = 0;
                while i < self.config.catalog.len()
                    invariant
                        i <= self.config.catalog.len(),
                        views(files@) == self@.config.sources().take(i as int),
                    decreases self.config.catalog.len() - i,
                {
                    let file = source_file(
                        self.config.kernel_dir.as_str(),
                        self.config.catalog[i].as_str(),
                    );
                    assert(views(files@.push(file)) == views(files@).push(file@));
                    files.push(file);
                    i += 1;
                }
                assert(self@.config.sources().take(i as int) == self@.config.sources());
            },
            _ => {
                assert(views(files@) == Seq::<Seq<char>>::empty());
            },
        }
        files
    }
}

} // verus!
