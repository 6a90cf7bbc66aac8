//! Runs of the target builder, and what holds of every run.

use crate::error::ErrorView;
use crate::sources::{
    added, lemma_added, link_command, object_path, source_files, source_plan, WalkEntryView,
};
use crate::target::{ActionView, EventView, Phase, StepView, TargetView, Waiting};
use vstd::prelude::*;

verus! {

/// The steps that the build takes from `state` on `events`, in order.
pub open spec fn run(state: TargetView, events: Seq<EventView>) -> Seq<StepView>
    decreases events.len(),
{
    if events.len() == 0 {
        Seq::empty()
    } else {
        seq![state.step(events[0]).1] + run(state.step(events[0]).0, events.drop_first())
    }
}

/// Where the build stands after it went from `state` through `events`.
pub open spec fn after(state: TargetView, events: Seq<EventView>) -> TargetView
    decreases events.len(),
{
    if events.len() == 0 {
        state
    } else {
        after(state.step(events[0]).0, events.drop_first())
    }
}

/// Whether the step from `state` on `event` finds the object of the
/// current source stale.
pub open spec fn judges_stale(state: TargetView, event: EventView) -> bool {
    &&& state.phase == Phase::PerFileCompile
    &&& state.waiting == Waiting::ForModTime
    &&& (event matches EventView::ModTime(time) && state.check.observe(time).verdict() == Some(
        true,
    ))
}

/// Whether some step of the run from `state` on `events` finds an object
/// stale.
pub open spec fn ever_stale(state: TargetView, events: Seq<EventView>) -> bool
    decreases events.len(),
{
    events.len() > 0 && (judges_stale(state, events[0]) || ever_stale(
        state.step(events[0]).0,
        events.drop_first(),
    ))
}

/// A compile is asked for only in a step that finds an object stale, and
/// in such a step it is asked for unless its plan failed. A link is asked
/// for only at the link decision of a target that did not stay unchanged.
/// A target stops being unchanged only in a step that finds an object
/// stale.
pub proof fn lemma_step_builds(state: TargetView, event: EventView)
    ensures
        state.step(event).1.action is Compile ==> judges_stale(state, event),
        judges_stale(state, event) ==> state.step(event).1.action is Compile || state.step(
            event,
        ).0.phase == Phase::Failed,
        state.step(event).1.action is Link ==> state.phase == Phase::LinkDecision
            && !state.unchanged,
        state.unchanged && !judges_stale(state, event) ==> state.step(event).0.unchanged,
{
}

/// Where every object is fresh, neither a compile nor a link is asked for:
/// on a run in which no step finds an object stale, a target that was
/// unchanged stays so and no step starts the compiler or the linker.
pub proof fn lemma_fresh_target_builds_nothing(state: TargetView, events: Seq<EventView>)
    requires
        state.unchanged,
        !ever_stale(state, events),
    ensures
        after(state, events).unchanged,
        forall|i: int|
            0 <= i < run(state, events).len() ==> !(#[trigger] run(
                state,
                events,
            )[i]).action.builds(),
    decreases events.len(),
{
    if events.len() > 0 {
        lemma_step_builds(state, events[0]);
        let next = state.step(events[0]).0;
        lemma_fresh_target_builds_nothing(next, events.drop_first());
    }
}

/// How many steps of the run from `state` on `events` find an object
/// stale.
pub open spec fn stale_count(state: TargetView, events: Seq<EventView>) -> nat
    decreases events.len(),
{
    if events.len() == 0 {
        0
    } else {
        let rest = stale_count(state.step(events[0]).0, events.drop_first());
        if judges_stale(state, events[0]) {
            rest + 1
        } else {
            rest
        }
    }
}

/// How many of `steps` ask for a compile.
pub open spec fn compile_count(steps: Seq<StepView>) -> nat
    decreases steps.len(),
{
    if steps.len() == 0 {
        0
    } else if steps[0].action is Compile {
        compile_count(steps.drop_first()) + 1
    } else {
        compile_count(steps.drop_first())
    }
}

/// A build that was given up stays so.
pub proof fn lemma_failed_stays(state: TargetView, events: Seq<EventView>)
    requires
        state.phase == Phase::Failed,
    ensures
        after(state, events).phase == Phase::Failed,
    decreases events.len(),
{
    if events.len() > 0 {
        lemma_failed_stays(state.step(events[0]).0, events.drop_first());
    }
}

/// Unless the build is given up, there is exactly one compile for each
/// source whose object is found stale: as many steps ask for a compile as
/// find an object stale.
pub proof fn lemma_one_compile_per_stale_source(state: TargetView, events: Seq<EventView>)
    requires
        after(state, events).phase != Phase::Failed,
    ensures
        compile_count(run(state, events)) == stale_count(state, events),
    decreases events.len(),
{
    if events.len() > 0 {
        let next = state.step(events[0]).0;
        lemma_step_builds(state, events[0]);
        if next.phase == Phase::Failed {
            lemma_failed_stays(next, events.drop_first());
        }
        lemma_one_compile_per_stale_source(next, events.drop_first());
        let steps = run(state, events);
        assert(steps.drop_first() == run(next, events.drop_first()));
    }
}

/// A target without sources is built without a word to the toolchain and
/// without a failure: once the walk has met no source, the build goes to
/// the link decision and from there to its end, and neither step asks for
/// anything outside.
pub proof fn lemma_no_sources_builds_nothing(
    compiler: Seq<char>,
    build_dir: Seq<char>,
    name: Seq<char>,
    roots: Seq<Seq<char>>,
    includes: Seq<Seq<char>>,
    entries: Seq<WalkEntryView>,
)
    requires
        source_files(entries).len() == 0,
    ensures
        run(
            TargetView::initial(compiler, build_dir, name, roots, includes),
            seq![EventView::Discovered(entries), EventView::Resume],
        ) == seq![
            StepView { report: None, action: ActionView::Proceed },
            StepView { report: None, action: ActionView::Finish(Ok(())) },
        ],
        after(
            TargetView::initial(compiler, build_dir, name, roots, includes),
            seq![EventView::Discovered(entries), EventView::Resume],
        ).phase == Phase::Done,
        after(
            TargetView::initial(compiler, build_dir, name, roots, includes),
            seq![EventView::Discovered(entries), EventView::Resume],
        ).outcome() == Ok::<(), ErrorView>(()),
{
    let state = TargetView::initial(compiler, build_dir, name, roots, includes);
    let events = seq![EventView::Discovered(entries), EventView::Resume];
    let first = state.step(events[0]);
    let tail = events.drop_first();
    let second = first.0.step(tail[0]);
    assert(run(second.0, tail.drop_first()) == Seq::<StepView>::empty());
    assert(run(first.0, tail) == seq![second.1]);
    assert(after(second.0, tail.drop_first()) == second.0);
    assert(after(first.0, tail) == second.0);
}

/// The objects of the sources `founds`, as a set.
pub open spec fn object_set(build_dir: Seq<char>, founds: Seq<Seq<char>>) -> Seq<Seq<char>>
    decreases founds.len(),
{
    if founds.len() == 0 {
        Seq::empty()
    } else {
        match object_path(build_dir, founds.last()) {
            Some(object) => added(object_set(build_dir, founds.drop_last()), object),
            None => object_set(build_dir, founds.drop_last()),
        }
    }
}

/// How many of the sources have their object among the objects of the
/// target.
pub open spec fn gathered(state: TargetView) -> int {
    match state.phase {
        Phase::Scanning => 0,
        Phase::PerFileCompile => if state.waiting == Waiting::ForScan {
            state.index
        } else {
            state.index + 1
        },
        _ => state.sources.len() as int,
    }
}

/// What holds of a build wherever it stands, unless it was given up: the
/// plan is that of the current source, the judgement in progress is on that
/// source and its object, a target that did not stay unchanged has gone
/// through a source, and the objects gathered are those of the sources gone
/// through, each once.
pub open spec fn consistent(state: TargetView) -> bool {
    state.phase == Phase::Failed || {
        &&& 0 <= gathered(state) <= state.sources.len()
        &&& state.phase == Phase::PerFileCompile ==> 0 <= state.index < state.sources.len()
            && source_plan(
            state.compiler,
            state.build_dir,
            state.includes,
            state.sources[state.index],
        ) == Ok::<_, ErrorView>(state.plan)
        &&& state.phase == Phase::PerFileCompile && state.waiting == Waiting::ForModTime
            ==> state.check.source == state.plan.source && state.check.object
            == state.plan.object
        &&& !state.unchanged ==> gathered(state) >= 1
        &&& state.objects == object_set(state.build_dir, state.sources.take(gathered(state)))
        &&& forall|j: int|
            0 <= j < gathered(state) ==> object_path(
                state.build_dir,
                #[trigger] state.sources[j],
            ) is Some
    }
}

/// A build that has just been started is consistent.
pub proof fn lemma_initial_consistent(
    compiler: Seq<char>,
    build_dir: Seq<char>,
    name: Seq<char>,
    roots: Seq<Seq<char>>,
    includes: Seq<Seq<char>>,
)
    ensures
        consistent(TargetView::initial(compiler, build_dir, name, roots, includes)),
{
}

proof fn lemma_begin_consistent(state: TargetView, index: int, report: Option<Seq<char>>)
    requires
        0 <= index <= state.sources.len(),
        state.phase != Phase::Failed,
        !state.unchanged ==> index >= 1,
        state.objects == object_set(state.build_dir, state.sources.take(index)),
        forall|j: int|
            0 <= j < index ==> object_path(state.build_dir, #[trigger] state.sources[j]) is Some,
    ensures
        consistent(state.begin(index, report).0),
{
}

/// A step keeps a build consistent.
pub proof fn lemma_step_consistent(state: TargetView, event: EventView)
    requires
        consistent(state),
    ensures
        consistent(state.step(event).0),
{
    let next = state.step(event).0;
    if state.is_over() || next.phase == Phase::Failed {
        return ;
    }
    match event {
        EventView::Refused(why) => {},
        EventView::Discovered(entries) => {
            let found = TargetView { sources: source_files(entries), ..state };
            lemma_begin_consistent(found, 0, None);
        },
        EventView::Exited(out) => {
            if state.phase == Phase::PerFileCompile && state.waiting == Waiting::ForScan {
                let upto = state.sources.take(state.index + 1);
                assert(upto.drop_last() == state.sources.take(state.index));
            } else if state.phase == Phase::PerFileCompile && state.waiting
                == Waiting::ForCompile {
                match crate::target::complaint(out) {
                    Err(e) => {},
                    Ok(report) => {
                        lemma_begin_consistent(state, state.index + 1, report);
                    },
                }
            }
        },
        EventView::ModTime(time) => {
            let check = state.check.observe(time);
            let told = TargetView { check, ..state };
            if check.verdict() == Some(false) {
                lemma_begin_consistent(told, state.index + 1, None);
            }
        },
        EventView::Resume => {},
    }
}

/// A run keeps a build consistent.
pub proof fn lemma_run_consistent(state: TargetView, events: Seq<EventView>)
    requires
        consistent(state),
    ensures
        consistent(after(state, events)),
    decreases events.len(),
{
    if events.len() > 0 {
        lemma_step_consistent(state, events[0]);
        lemma_run_consistent(state.step(events[0]).0, events.drop_first());
    }
}

/// The objects of any sources are a set.
pub proof fn lemma_object_set(build_dir: Seq<char>, founds: Seq<Seq<char>>)
    ensures
        object_set(build_dir, founds).no_duplicates(),
        forall|j: int|
            0 <= j < founds.len() && object_path(build_dir, #[trigger] founds[j]) is Some
                ==> object_set(build_dir, founds).contains(object_path(build_dir, founds[j])->0),
    decreases founds.len(),
{
    if founds.len() > 0 {
        let front = founds.drop_last();
        lemma_object_set(build_dir, front);
        match object_path(build_dir, founds.last()) {
            Some(object) => {
                lemma_added(object_set(build_dir, front), object);
            },
            None => {},
        }
        assert forall|j: int|
            0 <= j < founds.len() && object_path(
                build_dir,
                #[trigger] founds[j],
            ) is Some implies object_set(build_dir, founds).contains(
            object_path(build_dir, founds[j])->0,
        ) by {
            if j < front.len() {
                assert(front[j] == founds[j]);
            }
        }
    }
}

/// The link takes the object of every source, each once, whether the
/// source was compiled in this build or not: at the link decision the
/// objects of the target are those of all its sources, and where a link is
/// asked for, it is the link of exactly these.
pub proof fn lemma_link_takes_every_object(state: TargetView)
    requires
        consistent(state),
        state.phase == Phase::LinkDecision,
    ensures
        state.objects == object_set(state.build_dir, state.sources),
        state.objects.no_duplicates(),
        !state.unchanged ==> state.objects.len() >= 1,
        forall|j: int|
            0 <= j < state.sources.len() ==> (object_path(
                state.build_dir,
                #[trigger] state.sources[j],
            ) matches Some(object) && state.objects.contains(object)),
        state.step(EventView::Resume).1.action matches ActionView::Link(invocation) ==> exists|
            output: Seq<char>,
        |
            Ok::<_, ErrorView>(invocation) == link_command(
                state.compiler,
                object_set(state.build_dir, state.sources),
                output,
            ).invocation(),
{
    assert(state.sources.take(state.sources.len() as int) == state.sources);
    lemma_object_set(state.build_dir, state.sources);
}

} // verus!
