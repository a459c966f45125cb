//! What holds of every run of a build, whatever is reported to it.

use vstd::prelude::*;

use crate::compile::ProcessOutputView;
use crate::config::{format_of, ModuleFormat};
use crate::driver::{initial, next, pending, run, ActionView, BuildView, ConfigView, EventView, Phase};
use crate::error::BuildErrorView;

verus! {

/// A build starts well-formed, with what it was given.
pub proof fn lemma_start(config: ConfigView)
    requires
        config.catalog.len() <= usize::MAX,
    ensures
        initial(config).wf(),
        initial(config).config == config,
        initial(config).format == format_of(config.format),
{
}

/// An event leaves a build well-formed, and changes neither what the build
/// was given nor its format.
pub proof fn lemma_step(s: BuildView, event: EventView)
    requires
        s.wf(),
    ensures
        next(s, event).wf(),
        next(s, event).config == s.config,
        next(s, event).format == s.format,
{
}

/// A build that is done or given up stays as it is.
pub proof fn lemma_ended(s: BuildView, events: Seq<EventView>)
    requires
        s.phase is Finished || s.phase is Failed,
    ensures
        run(s, events) == s,
    decreases events.len(),
{
    if events.len() > 0 {
        lemma_ended(s, events.drop_last());
    }
}

/// Events leave a build well-formed, and change neither what the build was
/// given nor its format.
pub proof fn lemma_run(s: BuildView, events: Seq<EventView>)
    requires
        s.wf(),
    ensures
        run(s, events).wf(),
        run(s, events).config == s.config,
        run(s, events).format == s.format,
    decreases events.len(),
{
    if events.len() > 0 {
        lemma_run(s, events.drop_last());
        lemma_step(run(s, events.drop_last()), events.last());
    }
}

/// Running `first`, then `then`, is running the two in a row.
pub proof fn lemma_run_in_parts(s: BuildView, first: Seq<EventView>, then: Seq<EventView>)
    ensures
        run(s, first + then) == run(run(s, first), then),
    decreases then.len(),
{
    if then.len() == 0 {
        assert(first + then == first);
    } else {
        assert((first + then).drop_last() == first + then.drop_last());
        lemma_run_in_parts(s, first, then.drop_last());
    }
}

/// One strategy, or none. Whatever is reported to a build, in whatever
/// order: where the selector names a format, every action that the build
/// asks for, but those that end it, belongs to the strategy of that format;
/// where it names none, the build is given up from the start, with the
/// rejected value, and never asks for anything.
pub proof fn lemma_one_strategy(config: ConfigView, events: Seq<EventView>)
    requires
        config.catalog.len() <= usize::MAX,
    ensures
        match format_of(config.format) {
            Some(format) => {
                let asked = pending(run(initial(config), events)).strategy();
                asked is Some ==> asked == Some(format)
            },
            None => {
                &&& run(initial(config), events) == initial(config)
                &&& pending(initial(config)) == ActionView::Abort
                &&& initial(config).failure == Some(
                    BuildErrorView::InvalidFormat { value: config.format.unwrap() },
                )
            },
        },
{
    lemma_start(config);
    lemma_run(initial(config), events);
    if format_of(config.format) is None {
        lemma_ended(initial(config), events);
    }
}

/// A kernel unit without its source file ends the build: the build is given
/// up with the name of the missing file and the whole catalog, and asks for
/// nothing after that, so neither this unit nor a later one is compiled.
pub proof fn lemma_missing_source(s: BuildView, unit: usize, events: Seq<EventView>)
    requires
        s.wf(),
        s.phase == Phase::Checking(unit),
    ensures
        ({
            let stopped = next(s, EventView::SourceChecked { exists: false });
            &&& stopped.failure == Some(
                BuildErrorView::MissingSource {
                    path: s.config.source(unit as int),
                    catalog: s.config.catalog,
                },
            )
            &&& run(stopped, events) == stopped
            &&& pending(run(stopped, events)) == ActionView::Abort
        }),
{
    lemma_ended(next(s, EventView::SourceChecked { exists: false }), events);
}

/// A run of the compiler that does not succeed ends the build: the build is
/// given up with the command line and both output streams, and asks for
/// nothing after that.
pub proof fn lemma_failed_compile(
    s: BuildView,
    unit: usize,
    output: ProcessOutputView,
    events: Seq<EventView>,
)
    requires
        s.wf(),
        s.phase == Phase::Compiling(unit),
        !output.succeeded(),
    ensures
        ({
            let stopped = next(s, EventView::CompilerRan { output });
            &&& stopped.failure == Some(
                BuildErrorView::CompilerFailed {
                    command: crate::compile::command_line(s.unit_command(unit as int)),
                    stdout: output.stdout,
                    stderr: output.stderr,
                },
            )
            &&& run(stopped, events) == stopped
            &&& pending(run(stopped, events)) == ActionView::Abort
        }),
{
    lemma_ended(next(s, EventView::CompilerRan { output }), events);
}

/// The events of kernel units that are found and compiled, one after the
/// other: for each, that its source file exists, then how the compiler
/// ended.
pub open spec fn unit_events(outputs: Seq<ProcessOutputView>) -> Seq<EventView>
    decreases outputs.len(),
{
    if outputs.len() == 0 {
        Seq::empty()
    } else {
        unit_events(outputs.drop_last()) + seq![
            EventView::SourceChecked { exists: true },
            EventView::CompilerRan { output: outputs.last() },
        ]
    }
}

/// A build that turns to kernel unit `first`, and whose next units are all
/// found and compiled with success, then turns to the unit after them: it
/// has skipped none and gone back to none.
pub proof fn lemma_after_units(s: BuildView, first: int, outputs: Seq<ProcessOutputView>)
    requires
        s.wf(),
        0 <= first,
        first + outputs.len() <= s.config.catalog.len(),
        s.phase == s.config.unit_phase(first),
        forall|k: int| 0 <= k < outputs.len() ==> (#[trigger] outputs[k]).succeeded(),
    ensures
        run(s, unit_events(outputs)) == s.at(s.config.unit_phase(first + outputs.len())),
    decreases outputs.len(),
{
    if outputs.len() == 0 {
        assert(s.at(s.phase) == s);
    } else {
        let done = outputs.drop_last();
        let found = EventView::SourceChecked { exists: true };
        let compiled = EventView::CompilerRan { output: outputs.last() };
        let two = seq![found, compiled];
        lemma_after_units(s, first, done);
        lemma_run_in_parts(s, unit_events(done), two);
        let before = run(s, unit_events(done));
        assert(two.drop_last() == seq![found]);
        assert(seq![found].drop_last() == Seq::<EventView>::empty());
        assert(run(before, two) == next(next(before, found), compiled)) by {
            reveal_with_fuel(run, 3);
        }
        assert(before.phase == Phase::Checking((first + done.len()) as usize));
    }
}

/// One check and one run of the compiler for each kernel unit, in catalog
/// order. In a build that turns to kernel unit `first`, and whose next
/// units are all found and compiled with success, the build asks for the
/// source file of each of these units in turn, and, once it is found, for
/// the command that compiles that unit.
pub proof fn lemma_units_in_order(s: BuildView, first: int, outputs: Seq<ProcessOutputView>)
    requires
        s.wf(),
        0 <= first,
        first + outputs.len() <= s.config.catalog.len(),
        s.phase == s.config.unit_phase(first),
        forall|k: int| 0 <= k < outputs.len() ==> (#[trigger] outputs[k]).succeeded(),
    ensures
        forall|k: int|
            0 <= k < outputs.len() ==> {
                let before = #[trigger] run(s, unit_events(outputs.take(k)));
                &&& pending(before) == ActionView::CheckSource { path: s.config.source(first + k) }
                &&& pending(next(before, EventView::SourceChecked { exists: true }))
                    == ActionView::Compile { command: s.unit_command(first + k) }
            },
{
    assert forall|k: int| 0 <= k < outputs.len() implies {
        let before = #[trigger] run(s, unit_events(outputs.take(k)));
        &&& pending(before) == ActionView::CheckSource { path: s.config.source(first + k) }
        &&& pending(next(before, EventView::SourceChecked { exists: true }))
            == ActionView::Compile { command: s.unit_command(first + k) }
    } by {
        lemma_after_units(s, first, outputs.take(k));
    }
}

/// A build of the format `Cubin` whose kernel units are all found and
/// compiled with success writes the bindings of the whole catalog next,
/// and is done once they are written.
pub proof fn lemma_complete_build(s: BuildView, outputs: Seq<ProcessOutputView>)
    requires
        s.wf(),
        s.phase == s.config.unit_phase(0),
        outputs.len() == s.config.catalog.len(),
        forall|k: int| 0 <= k < outputs.len() ==> (#[trigger] outputs[k]).succeeded(),
    ensures
        ({
            let compiled = run(s, unit_events(outputs));
            &&& pending(compiled) == ActionView::WriteBindings {
                path: s.config.bindings_path(ModuleFormat::Cubin),
                text: crate::bindings::bindings_text(s.config.catalog),
            }
            &&& next(compiled, EventView::BindingsWritten { error: None }) == s.at(Phase::Finished)
        }),
{
    lemma_after_units(s, 0, outputs);
}

} // verus!
