//! The project driver: the build directory is made first, then every
//! target is built in turn, whatever became of the one before.

use crate::config::{Config, ExecConfig};
use crate::error::{Error, ErrorView};
use crate::sources::{distinct, named_dirs};
use crate::target::{Step, StepView, TargetBuild, TargetView};
use crate::text::texts;
use vstd::prelude::*;

verus! {

/// Where the build of a project stands.
#[derive(Clone, Copy, Debug, PartialEq, Eq, Structural)]
pub enum ProjectPhase {
    /// The build directory is being made.
    Preparing,
    /// A target is being built.
    Building,
    /// Every target was gone through.
    Done,
    /// The build was given up.
    Failed,
}

/// What the caller tells the driver.
#[derive(Debug)]
pub enum ProjectEvent {
    /// The build directory is there.
    DirCreated,
    /// The build directory could not be made; the words say why.
    DirRefused(String),
    /// The build of the target that was handed out is over, with this
    /// outcome.
    TargetFinished(Result<(), Error>),
}

/// The mathematical form of a [`ProjectEvent`].
pub enum ProjectEventView {
    DirCreated,
    DirRefused(Seq<char>),
    TargetFinished(Result<(), ErrorView>),
}

impl View for ProjectEvent {
    type V = ProjectEventView;

    open spec fn view(&self) -> ProjectEventView {
        match self {
            ProjectEvent::DirCreated => ProjectEventView::DirCreated,
            ProjectEvent::DirRefused(why) => ProjectEventView::DirRefused(why@),
            ProjectEvent::TargetFinished(Ok(_)) => ProjectEventView::TargetFinished(Ok(())),
            ProjectEvent::TargetFinished(Err(e)) => ProjectEventView::TargetFinished(Err(e@)),
        }
    }
}

/// What the driver asks of its caller.
pub enum ProjectAction {
    /// Make this directory, with every directory above it that is missing.
    CreateDir(String),
    /// Build this target: carry out its first step and go on from there.
    Build(TargetBuild, Step),
    /// The build of the project is over, with this outcome.
    Finish(Result<(), Error>),
}

/// The mathematical form of a [`ProjectAction`].
pub enum ProjectActionView {
    CreateDir(Seq<char>),
    Build(TargetView, StepView),
    Finish(Result<(), ErrorView>),
}

impl View for ProjectAction {
    type V = ProjectActionView;

    open spec fn view(&self) -> ProjectActionView {
        match self {
            ProjectAction::CreateDir(dir) => ProjectActionView::CreateDir(dir@),
            ProjectAction::Build(target, step) => ProjectActionView::Build(target@, step@),
            ProjectAction::Finish(Ok(_)) => ProjectActionView::Finish(Ok(())),
            ProjectAction::Finish(Err(e)) => ProjectActionView::Finish(Err(e@)),
        }
    }
}

/// The build of the target `executable` of a project, before anything was
/// done.
pub open spec fn target_of(compiler: Seq<char>, build_dir: Seq<char>, executable: ExecConfig)
    -> TargetView {
    TargetView::initial(
        compiler,
        build_dir,
        executable.name@,
        texts(executable.src@),
        distinct(named_dirs(executable)),
    )
}

/// The builds of the targets of a project, in the order in which the
/// project names them.
pub open spec fn targets_of(config: Config) -> Seq<TargetView> {
    Seq::new(
        config.executables@.len(),
        |i: int| target_of(config.compiler@, config.build.dir@, config.executables@[i]),
    )
}

/// The build of a project in progress.
pub struct ProjectBuild {
    config: Config,
    next: usize,
    phase: ProjectPhase,
    failure: Option<Error>,
}

/// The mathematical form of a [`ProjectBuild`].
pub struct ProjectView {
    /// The directory that outputs go to.
    pub build_dir: Seq<char>,
    /// The builds of the targets, each as it starts.
    pub targets: Seq<TargetView>,
    /// The position of the target that is built now, or next.
    pub next: int,
    /// Where the build stands.
    pub phase: ProjectPhase,
    /// Why the build was given up, once it was.
    pub failure: Option<ErrorView>,
}

impl ProjectView {
    /// The build of a project before anything was done.
    pub open spec fn initial(config: Config) -> ProjectView {
        ProjectView {
            build_dir: config.build.dir@,
            targets: targets_of(config),
            next: 0,
            phase: ProjectPhase::Preparing,
            failure: None,
        }
    }

    /// The first action of a build: make the build directory.
    pub open spec fn first_action(self) -> ProjectActionView {
        ProjectActionView::CreateDir(self.build_dir)
    }

    /// The outcome of a build that is over.
    pub open spec fn outcome(self) -> Result<(), ErrorView> {
        match self.failure {
            Some(e) => Err(e),
            None => Ok(()),
        }
    }

    /// The build is given up because of `e`.
    pub open spec fn failed(self, e: ErrorView) -> (ProjectView, ProjectActionView) {
        (
            ProjectView { phase: ProjectPhase::Failed, failure: Some(e), ..self },
            ProjectActionView::Finish(Err(e)),
        )
    }

    /// The build turns to the target at `index`; past the last target it is
    /// over.
    pub open spec fn turn_to(self, index: int) -> (ProjectView, ProjectActionView) {
        if 0 <= index < self.targets.len() {
            (
                ProjectView { phase: ProjectPhase::Building, next: index, ..self },
                ProjectActionView::Build(self.targets[index], self.targets[index].first_step()),
            )
        } else {
            (
                ProjectView { phase: ProjectPhase::Done, next: index, ..self },
                ProjectActionView::Finish(self.outcome()),
            )
        }
    }

    /// One step: the state after `event`, and what is asked for next. A
    /// build directory that cannot be made ends the build at once. The
    /// outcome of a target changes nothing: the next target is built.
    pub open spec fn step(self, event: ProjectEventView) -> (ProjectView, ProjectActionView) {
        match self.phase {
            ProjectPhase::Done | ProjectPhase::Failed => (
                self,
                ProjectActionView::Finish(self.outcome()),
            ),
            ProjectPhase::Preparing => match event {
                ProjectEventView::DirCreated => self.turn_to(0),
                ProjectEventView::DirRefused(why) => self.failed(ErrorView::Custom(why)),
                ProjectEventView::TargetFinished(_) => self.failed(ErrorView::UnexpectedEvent),
            },
            ProjectPhase::Building => match event {
                ProjectEventView::TargetFinished(_) => self.turn_to(self.next + 1),
                _ => self.failed(ErrorView::UnexpectedEvent),
            },
        }
    }

    /// Where the build stands after the targets from the current one on
    /// ended with `outcomes`, one after the other.
    pub open spec fn after_targets(self, outcomes: Seq<Result<(), ErrorView>>) -> ProjectView
        decreases outcomes.len(),
    {
        if outcomes.len() == 0 {
            self
        } else {
            self.step(ProjectEventView::TargetFinished(outcomes[0])).0.after_targets(
                outcomes.drop_first(),
            )
        }
    }
}

/// The outcome of a target does not count: whether it succeeded or failed,
/// the driver goes on in the same way.
pub proof fn lemma_target_outcome_is_ignored(
    state: ProjectView,
    one: Result<(), ErrorView>,
    other: Result<(), ErrorView>,
)
    ensures
        state.step(ProjectEventView::TargetFinished(one)) == state.step(
            ProjectEventView::TargetFinished(other),
        ),
{
}

/// Once the build directory is there, the project succeeds whatever
/// becomes of its targets: after as many targets ended as are still to be
/// built, the build is done and nothing is recorded as a failure.
pub proof fn lemma_project_succeeds(state: ProjectView, outcomes: Seq<Result<(), ErrorView>>)
    requires
        state.phase == ProjectPhase::Building,
        state.failure is None,
        0 <= state.next < state.targets.len(),
        outcomes.len() == state.targets.len() - state.next,
    ensures
        state.after_targets(outcomes).phase == ProjectPhase::Done,
        state.after_targets(outcomes).outcome() == Ok::<(), ErrorView>(()),
    decreases outcomes.len(),
{
    let next = state.step(ProjectEventView::TargetFinished(outcomes[0])).0;
    if outcomes.len() == 1 {
        assert(next.after_targets(outcomes.drop_first()) == next);
    } else {
        lemma_project_succeeds(next, outcomes.drop_first());
    }
}

/// A build directory that cannot be made ends the build with a failure
/// before any target is touched.
pub proof fn lemma_missing_build_dir_is_fatal(config: Config, why: Seq<char>)
    ensures
        ProjectView::initial(config).step(ProjectEventView::DirRefused(why)).1
            == ProjectActionView::Finish(Err(ErrorView::Custom(why))),
        ProjectView::initial(config).step(ProjectEventView::DirRefused(why)).0.phase
            == ProjectPhase::Failed,
{
}

impl View for ProjectBuild {
    type V = ProjectView;

    closed spec fn view(&self) -> ProjectView {
        ProjectView {
            build_dir: self.config.build.dir@,
            targets: targets_of(self.config),
            next: self.next as int,
            phase: self.phase,
            failure: match self.failure {
                Some(e) => Some(e@),
                None => None,
            },
        }
    }
}

impl ProjectBuild {
    /// What holds of every build that this module hands out.
    pub closed spec fn wf(&self) -> bool {
        self.phase == ProjectPhase::Building ==> self.next < self.config.executables@.len()
    }

    /// Starts the build of the project `config` and hands out its first
    /// action: the build directory is to be made.
    pub fn new(config: Config) -> (r: (ProjectBuild, ProjectAction))
        ensures
            r.0.wf(),
            r.0@ == ProjectView::initial(config),
            r.1@ == r.0@.first_action(),
    {
        let dir = config.build.dir.clone();
        (
            ProjectBuild { config, next: 0, phase: ProjectPhase::Preparing, failure: None },
            ProjectAction::CreateDir(dir),
        )
    }

    /// Where the build stands.
    pub fn phase(&self) -> (r: ProjectPhase)
        ensures
            r == self@.phase,
    {
        self.phase
    }

    /// How the build ended, once it is over: `Ok` unless it was given up.
    pub fn outcome(&self) -> (r: Result<(), Error>)
        ensures
            crate::error::result_view(r) == self@.outcome(),
    {
        match &self.failure {
            Some(e) => Err(e.duplicate()),
            None => Ok(()),
        }
    }

    /// Gives the build up because of `e`.
    fn fail(&mut self, e: Error) -> (r: ProjectAction)
        requires
            old(self).wf(),
        ensures
            final(self).wf(),
            (final(self)@, r@) == old(self)@.failed(e@),
    {
        self.phase = ProjectPhase::Failed;
        self.failure = Some(e.duplicate());
        ProjectAction::Finish(Err(e))
    }

    /// Turns to the target at `index`, or ends the build past the last.
    fn turn_to(&mut self, index: usize) -> (r: ProjectAction)
        requires
            old(self).wf(),
        ensures
            final(self).wf(),
            (final(self)@, r@) == old(self)@.turn_to(index as int),
            r matches ProjectAction::Build(target, _) ==> target.wf(),
    {
        if index < self.config.executables.len() {
            let (target, step) = TargetBuild::new(
                &self.config.compiler,
                &self.config.executables[index],
                &self.config.build,
            );
            self.phase = ProjectPhase::Building;
            self.next = index;
            ProjectAction::Build(target, step)
        } else {
            self.phase = ProjectPhase::Done;
            self.next = index;
            ProjectAction::Finish(self.outcome())
        }
    }

    /// Takes the event that tells how the last action went, moves the build
    /// on and hands out the next action.
    pub fn step(&mut self, event: ProjectEvent) -> (r: ProjectAction)
        requires
            old(self).wf(),
        ensures
            final(self).wf(),
            (final(self)@, r@) == old(self)@.step(event@),
            r matches ProjectAction::Build(target, _) ==> target.wf(),
    {
        match self.phase {
            ProjectPhase::Done | ProjectPhase::Failed => ProjectAction::Finish(self.outcome()),
            ProjectPhase::Preparing => match event {
                ProjectEvent::DirCreated => self.turn_to(0),
                ProjectEvent::DirRefused(why) => self.fail(Error::Custom(why)),
                ProjectEvent::TargetFinished(_) => self.fail(Error::UnexpectedEvent),
            },
            ProjectPhase::Building => match event {
                ProjectEvent::TargetFinished(_) => {
                    let count = self.config.executables.len();
                    assert(self.next < count);
                    let index = self.next + 1;
                    self.turn_to(index)
                },
                _ => self.fail(Error::UnexpectedEvent),
            },
        }
    }
}

} // verus!
