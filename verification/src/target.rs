//! The target builder: the build of one executable as a state machine.
//!
//! The machine decides; its caller does the outside work. Each step hands
//! out one action (walk the roots, run the toolchain, read the instant of a
//! file's last change) and takes the event that tells how the action of the
//! step before went.

use crate::config::{BuildConfig, ExecConfig};
use crate::deps::{decode, read_scan, scan_outcome, utf8_text, ProcessOutput, ProcessOutputView};
use crate::error::{Error, ErrorView};
use crate::gcc::{Invocation, InvocationView};
use crate::sources::{
    added, distinct, entry_views, get_include_paths, get_source_files, insert, link_plan,
    named_dirs, plan_link, plan_source, source_files, source_plan, SourcePlan, SourcePlanView,
    WalkEntry, WalkEntryView,
};
use crate::stale::{StalenessCheck, StalenessView};
use crate::text::{copy_texts, opt_text, texts};
use crate::trace::{consistent, lemma_initial_consistent, lemma_step_consistent};
use vstd::prelude::*;
use vstd::string::StringExecFns;

verus! {

/// Where the build of a target stands.
#[derive(Clone, Copy, Debug, PartialEq, Eq, Structural)]
pub enum Phase {
    /// The sources are being looked for.
    Scanning,
    /// The sources are gone through one by one.
    PerFileCompile,
    /// Every source was gone through; whether to link is decided next.
    LinkDecision,
    /// The link is running.
    Linking,
    /// The build of the target is over.
    Done,
    /// The build of the target was given up.
    Failed,
}

/// What the work on one source is waiting for.
#[derive(Clone, Copy, Debug, PartialEq, Eq, Structural)]
pub enum Waiting {
    /// The dependency listing.
    ForScan,
    /// The instant of a file's last change.
    ForModTime,
    /// The end of the compile.
    ForCompile,
}

/// What the caller tells the machine.
#[derive(Debug)]
pub enum Event {
    /// The roots were walked; these entries were met.
    Discovered(Vec<WalkEntry>),
    /// The toolchain ran and left this behind.
    Exited(ProcessOutput),
    /// The action could not be carried out; the words say why.
    Refused(String),
    /// The instant of the last change of the file that was asked about;
    /// `None` where the file is missing or cannot be read.
    ModTime(Option<i128>),
    /// Nothing was asked for; go on.
    Resume,
}

/// The mathematical form of an [`Event`].
pub enum EventView {
    Discovered(Seq<WalkEntryView>),
    Exited(ProcessOutputView),
    Refused(Seq<char>),
    ModTime(Option<i128>),
    Resume,
}

impl View for Event {
    type V = EventView;

    open spec fn view(&self) -> EventView {
        match self {
            Event::Discovered(entries) => EventView::Discovered(entry_views(entries@)),
            Event::Exited(out) => EventView::Exited(out@),
            Event::Refused(why) => EventView::Refused(why@),
            Event::ModTime(time) => EventView::ModTime(*time),
            Event::Resume => EventView::Resume,
        }
    }
}

/// What the machine asks of its caller.
#[derive(Debug)]
pub enum Action {
    /// Walk these roots and tell every entry met.
    Discover(Vec<String>),
    /// Run the dependency listing: this program with these arguments.
    Scan { program: String, args: Vec<String> },
    /// Tell the instant of the last change of this file.
    ReadModTime(String),
    /// Run this compile.
    Compile(Invocation),
    /// Run this link.
    Link(Invocation),
    /// Nothing to do outside; step again.
    Proceed,
    /// The build of the target is over, with this outcome.
    Finish(Result<(), Error>),
}

/// The mathematical form of an [`Action`].
pub enum ActionView {
    Discover(Seq<Seq<char>>),
    Scan { program: Seq<char>, args: Seq<Seq<char>> },
    ReadModTime(Seq<char>),
    Compile(InvocationView),
    Link(InvocationView),
    Proceed,
    Finish(Result<(), ErrorView>),
}

impl View for Action {
    type V = ActionView;

    open spec fn view(&self) -> ActionView {
        match self {
            Action::Discover(roots) => ActionView::Discover(texts(roots@)),
            Action::Scan { program, args } => ActionView::Scan {
                program: program@,
                args: texts(args@),
            },
            Action::ReadModTime(path) => ActionView::ReadModTime(path@),
            Action::Compile(invocation) => ActionView::Compile(invocation@),
            Action::Link(invocation) => ActionView::Link(invocation@),
            Action::Proceed => ActionView::Proceed,
            Action::Finish(Ok(_)) => ActionView::Finish(Ok(())),
            Action::Finish(Err(e)) => ActionView::Finish(Err(e@)),
        }
    }
}

impl ActionView {
    /// Whether the action starts a compile or a link.
    pub open spec fn builds(self) -> bool {
        self is Compile || self is Link
    }
}

/// One step of the machine: a line to show, where there is one, and the
/// action to carry out after it.
#[derive(Debug)]
pub struct Step {
    pub report: Option<String>,
    pub action: Action,
}

/// The mathematical form of a [`Step`].
pub struct StepView {
    pub report: Option<Seq<char>>,
    pub action: ActionView,
}

impl View for Step {
    type V = StepView;

    open spec fn view(&self) -> StepView {
        StepView { report: opt_text(self.report), action: self.action@ }
    }
}

/// The status line that opens the build of the target called `name`.
pub open spec fn build_line(name: Seq<char>) -> Seq<char> {
    "\t[BUILD] "@ + name
}

/// The status line that announces the compile of the file called `name`.
pub open spec fn compile_line(name: Seq<char>) -> Seq<char> {
    "\t[CC]: "@ + name
}

/// The status line that announces the link of the target called `name`.
pub open spec fn link_line(name: Seq<char>) -> Seq<char> {
    "\t[LINK]: "@ + name
}

/// A status line: `head`, then `name`.
pub fn status_line(head: &str, name: &str) -> (r: String)
    ensures
        r@ == head@ + name@,
{
    let mut line = String::from_str(head);
    line.append(name);
    line
}

/// What a finished compile or link has to say: nothing after success, and
/// after a failure what it wrote to standard error, which must be UTF-8.
pub open spec fn complaint(out: ProcessOutputView) -> Result<Option<Seq<char>>, ErrorView> {
    if out.success {
        Ok(None)
    } else {
        match utf8_text(out.stderr) {
            None => Err(ErrorView::InvalidUtf8),
            Some(text) => Ok(Some(text)),
        }
    }
}

/// The mathematical form of a complaint, or of the failure in its place.
pub open spec fn complaint_view(r: Result<Option<String>, Error>) -> Result<
    Option<Seq<char>>,
    ErrorView,
> {
    match r {
        Ok(report) => Ok(opt_text(report)),
        Err(e) => Err(e@),
    }
}

/// Reads what a finished compile or link has to say.
pub fn read_complaint(out: ProcessOutput) -> (r: Result<Option<String>, Error>)
    ensures
        complaint_view(r) == complaint(out@),
{
    if out.success {
        Ok(None)
    } else {
        match decode(out.stderr) {
            None => Err(Error::InvalidUtf8),
            Some(text) => Ok(Some(text)),
        }
    }
}

/// The build of one target in progress.
pub struct TargetBuild {
    compiler: String,
    build_dir: String,
    name: String,
    roots: Vec<String>,
    includes: Vec<String>,
    phase: Phase,
    waiting: Waiting,
    sources: Vec<String>,
    index: usize,
    plan: SourcePlan,
    check: StalenessCheck,
    objects: Vec<String>,
    unchanged: bool,
    failure: Option<Error>,
}

/// The mathematical form of a [`TargetBuild`].
pub struct TargetView {
    /// The toolchain.
    pub compiler: Seq<char>,
    /// The directory that outputs go to.
    pub build_dir: Seq<char>,
    /// The name of the target and of its executable.
    pub name: Seq<char>,
    /// The roots under which sources are looked for.
    pub roots: Seq<Seq<char>>,
    /// The header directories, as a set.
    pub includes: Seq<Seq<char>>,
    /// Where the build stands.
    pub phase: Phase,
    /// What the work on the current source is waiting for.
    pub waiting: Waiting,
    /// The sources, as a set.
    pub sources: Seq<Seq<char>>,
    /// The position of the current source.
    pub index: int,
    /// The plan for the current source.
    pub plan: SourcePlanView,
    /// The judgement on the object of the current source.
    pub check: StalenessView,
    /// The objects gathered so far, as a set.
    pub objects: Seq<Seq<char>>,
    /// Whether no source had to be compiled so far.
    pub unchanged: bool,
    /// Why the build was given up, once it was.
    pub failure: Option<ErrorView>,
}

impl TargetView {
    /// The build of a target before anything was done.
    pub open spec fn initial(
        compiler: Seq<char>,
        build_dir: Seq<char>,
        name: Seq<char>,
        roots: Seq<Seq<char>>,
        includes: Seq<Seq<char>>,
    ) -> TargetView {
        TargetView {
            compiler,
            build_dir,
            name,
            roots,
            includes,
            phase: Phase::Scanning,
            waiting: Waiting::ForScan,
            sources: Seq::empty(),
            index: 0,
            plan: SourcePlanView {
                source: Seq::empty(),
                object: Seq::empty(),
                scan: Seq::empty(),
                label: Err(ErrorView::NoInputs),
                compile: Err(ErrorView::NoInputs),
            },
            check: StalenessView::fresh(Seq::empty(), Seq::empty(), Seq::empty()),
            objects: Seq::empty(),
            unchanged: true,
            failure: None,
        }
    }

    /// The first step of a build: announce the target and have its roots
    /// walked.
    pub open spec fn first_step(self) -> StepView {
        StepView { report: Some(build_line(self.name)), action: ActionView::Discover(self.roots) }
    }

    /// The build is given up because of `e`.
    pub open spec fn failed(self, e: ErrorView, report: Option<Seq<char>>) -> (
        TargetView,
        StepView,
    ) {
        (
            TargetView { phase: Phase::Failed, failure: Some(e), ..self },
            StepView { report, action: ActionView::Finish(Err(e)) },
        )
    }

    /// The build turns to the source at `index`: its dependency listing is
    /// asked for. Past the last source it turns to the link decision.
    pub open spec fn begin(self, index: int, report: Option<Seq<char>>) -> (TargetView, StepView) {
        if index >= self.sources.len() {
            (
                TargetView { phase: Phase::LinkDecision, index, ..self },
                StepView { report, action: ActionView::Proceed },
            )
        } else {
            match source_plan(self.compiler, self.build_dir, self.includes, self.sources[index]) {
                Err(e) => self.failed(e, report),
                Ok(plan) => (
                    TargetView {
                        phase: Phase::PerFileCompile,
                        waiting: Waiting::ForScan,
                        index,
                        plan,
                        ..self
                    },
                    StepView {
                        report,
                        action: ActionView::Scan { program: self.compiler, args: plan.scan },
                    },
                ),
            }
        }
    }

    /// The roots were walked: the sources among the entries are gone
    /// through from the first.
    pub open spec fn discovered(self, entries: Seq<WalkEntryView>) -> (TargetView, StepView) {
        TargetView { sources: source_files(entries), ..self }.begin(0, None)
    }

    /// The dependency listing of the current source ended: its object joins
    /// the objects of the target, and the judgement on it starts by asking
    /// for the instant of the source.
    pub open spec fn scanned(self, out: ProcessOutputView) -> (TargetView, StepView) {
        match scan_outcome(out) {
            Err(e) => self.failed(e, None),
            Ok(headers) => (
                TargetView {
                    waiting: Waiting::ForModTime,
                    objects: added(self.objects, self.plan.object),
                    check: StalenessView::fresh(self.plan.source, self.plan.object, headers),
                    ..self
                },
                StepView { report: None, action: ActionView::ReadModTime(self.plan.source) },
            ),
        }
    }

    /// The current source has to be compiled: the target is no longer
    /// unchanged, and the compile is announced and asked for.
    pub open spec fn start_compile(self) -> (TargetView, StepView) {
        let changed = TargetView { unchanged: false, ..self };
        match self.plan.label {
            Err(e) => changed.failed(e, None),
            Ok(name) => match self.plan.compile {
                Err(e) => changed.failed(e, None),
                Ok(invocation) => (
                    TargetView { waiting: Waiting::ForCompile, ..changed },
                    StepView {
                        report: Some(compile_line(name)),
                        action: ActionView::Compile(invocation),
                    },
                ),
            },
        }
    }

    /// An instant was told: the judgement takes it. While nothing is
    /// settled the next file is asked about; a fresh object lets the build
    /// turn to the next source; a stale one has the source compiled.
    pub open spec fn observed(self, time: Option<i128>) -> (TargetView, StepView) {
        let check = self.check.observe(time);
        let next = TargetView { check, ..self };
        match check.verdict() {
            None => (
                next,
                StepView {
                    report: None,
                    action: ActionView::ReadModTime(check.paths()[check.seen.len() as int]),
                },
            ),
            Some(false) => next.begin(self.index + 1, None),
            Some(true) => next.start_compile(),
        }
    }

    /// The compile of the current source ended: what it complained of is
    /// shown, and the build turns to the next source whether the compile
    /// succeeded or not.
    pub open spec fn compiled(self, out: ProcessOutputView) -> (TargetView, StepView) {
        match complaint(out) {
            Err(e) => self.failed(e, None),
            Ok(report) => self.begin(self.index + 1, report),
        }
    }

    /// Every source was gone through: where none had to be compiled the
    /// build is over; otherwise all objects of the target are linked.
    pub open spec fn decide_link(self) -> (TargetView, StepView) {
        if self.unchanged {
            (
                TargetView { phase: Phase::Done, ..self },
                StepView { report: None, action: ActionView::Finish(Ok(())) },
            )
        } else {
            match link_plan(self.compiler, self.build_dir, self.name, self.objects) {
                Err(e) => self.failed(e, None),
                Ok(invocation) => (
                    TargetView { phase: Phase::Linking, ..self },
                    StepView {
                        report: Some(link_line(self.name)),
                        action: ActionView::Link(invocation),
                    },
                ),
            }
        }
    }

    /// The link ended: what it complained of is shown, and the build is
    /// over whether the link succeeded or not.
    pub open spec fn linked(self, out: ProcessOutputView) -> (TargetView, StepView) {
        match complaint(out) {
            Err(e) => self.failed(e, None),
            Ok(report) => (
                TargetView { phase: Phase::Done, ..self },
                StepView { report, action: ActionView::Finish(Ok(())) },
            ),
        }
    }

    /// The outcome of a build that is over.
    pub open spec fn outcome(self) -> Result<(), ErrorView> {
        match self.failure {
            Some(e) => Err(e),
            None => Ok(()),
        }
    }

    /// The build stays where it is and says again how it ended.
    pub open spec fn over(self) -> (TargetView, StepView) {
        (self, StepView { report: None, action: ActionView::Finish(self.outcome()) })
    }

    /// Whether the build is over.
    pub open spec fn is_over(self) -> bool {
        self.phase == Phase::Done || self.phase == Phase::Failed
    }

    /// One step: the state after `event`, and what is asked for next. An
    /// event that the state was not waiting for ends the build.
    pub open spec fn step(self, event: EventView) -> (TargetView, StepView) {
        if self.is_over() {
            self.over()
        } else {
            match event {
                EventView::Refused(why) => self.failed(ErrorView::Custom(why), None),
                EventView::Discovered(entries) => if self.phase == Phase::Scanning {
                    self.discovered(entries)
                } else {
                    self.failed(ErrorView::UnexpectedEvent, None)
                },
                EventView::Exited(out) => if self.phase == Phase::PerFileCompile && self.waiting
                    == Waiting::ForScan {
                    self.scanned(out)
                } else if self.phase == Phase::PerFileCompile && self.waiting
                    == Waiting::ForCompile {
                    self.compiled(out)
                } else if self.phase == Phase::Linking {
                    self.linked(out)
                } else {
                    self.failed(ErrorView::UnexpectedEvent, None)
                },
                EventView::ModTime(time) => if self.phase == Phase::PerFileCompile && self.waiting
                    == Waiting::ForModTime {
                    self.observed(time)
                } else {
                    self.failed(ErrorView::UnexpectedEvent, None)
                },
                EventView::Resume => if self.phase == Phase::LinkDecision {
                    self.decide_link()
                } else {
                    self.failed(ErrorView::UnexpectedEvent, None)
                },
            }
        }
    }
}

impl View for TargetBuild {
    type V = TargetView;

    closed spec fn view(&self) -> TargetView {
        TargetView {
            compiler: self.compiler@,
            build_dir: self.build_dir@,
            name: self.name@,
            roots: texts(self.roots@),
            includes: texts(self.includes@),
            phase: self.phase,
            waiting: self.waiting,
            sources: texts(self.sources@),
            index: self.index as int,
            plan: self.plan@,
            check: self.check@,
            objects: texts(self.objects@),
            unchanged: self.unchanged,
            failure: match self.failure {
                Some(e) => Some(e@),
                None => None,
            },
        }
    }
}

impl TargetBuild {
    /// What the steps of a build rely on.
    closed spec fn sound(&self) -> bool {
        &&& self.check.wf()
        &&& self.phase == Phase::PerFileCompile ==> self.index < self.sources@.len()
    }

    /// What holds of every build that this module hands out: its parts fit
    /// together, and it is consistent.
    pub closed spec fn wf(&self) -> bool {
        self.sound() && consistent(self@)
    }

    /// A build that this module handed out is consistent.
    pub proof fn lemma_wf(&self)
        requires
            self.wf(),
        ensures
            consistent(self@),
    {
    }

    /// Starts the build of the target `executable` with the toolchain
    /// `compiler`, and hands out its first step: the target is announced
    /// and its roots are to be walked.
    pub fn new(compiler: &String, executable: &ExecConfig, build: &BuildConfig) -> (r: (
        TargetBuild,
        Step,
    ))
        ensures
            r.0.wf(),
            r.0@ == TargetView::initial(
                compiler@,
                build.dir@,
                executable.name@,
                texts(executable.src@),
                distinct(named_dirs(*executable)),
            ),
            r.1@ == r.0@.first_step(),
    {
        let none: Vec<String> = Vec::new();
        let no_sources: Vec<String> = Vec::new();
        let no_objects: Vec<String> = Vec::new();
        let no_args: Vec<String> = Vec::new();
        assert(texts(none@) == Seq::<Seq<char>>::empty());
        let machine = TargetBuild {
            compiler: compiler.clone(),
            build_dir: build.dir.clone(),
            name: executable.name.clone(),
            roots: copy_texts(&executable.src),
            includes: get_include_paths(executable),
            phase: Phase::Scanning,
            waiting: Waiting::ForScan,
            sources: no_sources,
            index: 0,
            plan: SourcePlan {
                source: String::new(),
                object: String::new(),
                scan: no_args,
                label: Err(Error::NoInputs),
                compile: Err(Error::NoInputs),
            },
            check: StalenessCheck::new(String::new(), String::new(), none),
            objects: no_objects,
            unchanged: true,
            failure: None,
        };
        proof {
            lemma_initial_consistent(
                compiler@,
                build.dir@,
                executable.name@,
                texts(executable.src@),
                distinct(named_dirs(*executable)),
            );
        }
        let step = Step {
            report: Some(status_line("\t[BUILD] ", executable.name.as_str())),
            action: Action::Discover(copy_texts(&executable.src)),
        };
        (machine, step)
    }

    /// Where the build stands.
    pub fn phase(&self) -> (r: Phase)
        ensures
            r == self@.phase,
    {
        self.phase
    }

    /// The objects gathered so far.
    pub fn objects(&self) -> (r: Vec<String>)
        ensures
            texts(r@) == self@.objects,
    {
        copy_texts(&self.objects)
    }

    /// Gives the build up because of `e`.
    fn fail(&mut self, e: Error, report: Option<String>) -> (r: Step)
        requires
            old(self).sound(),
        ensures
            final(self).sound(),
            (final(self)@, r@) == old(self)@.failed(e@, opt_text(report)),
    {
        self.phase = Phase::Failed;
        self.failure = Some(e.duplicate());
        Step { report, action: Action::Finish(Err(e)) }
    }

    /// Turns to the source at `index`, or to the link decision past the last.
    fn begin(&mut self, index: usize, report: Option<String>) -> (r: Step)
        requires
            old(self).sound(),
        ensures
            final(self).sound(),
            (final(self)@, r@) == old(self)@.begin(index as int, opt_text(report)),
    {
        if index >= self.sources.len() {
            self.phase = Phase::LinkDecision;
            self.index = index;
            return Step { report, action: Action::Proceed };
        }
        match plan_source(&self.compiler, &self.build_dir, &self.includes, &self.sources[index]) {
            Err(e) => self.fail(e, report),
            Ok(plan) => {
                let args = copy_texts(&plan.scan);
                self.phase = Phase::PerFileCompile;
                self.waiting = Waiting::ForScan;
                self.index = index;
                self.plan = plan;
                Step { report, action: Action::Scan { program: self.compiler.clone(), args } }
            },
        }
    }

    /// Takes the end of the dependency listing of the current source.
    fn scanned(&mut self, out: ProcessOutput) -> (r: Step)
        requires
            old(self).sound(),
            old(self)@.phase == Phase::PerFileCompile,
        ensures
            final(self).sound(),
            (final(self)@, r@) == old(self)@.scanned(out@),
    {
        match read_scan(out) {
            Err(e) => self.fail(e, None),
            Ok(headers) => {
                insert(&mut self.objects, self.plan.object.clone());
                self.check = StalenessCheck::new(
                    self.plan.source.clone(),
                    self.plan.object.clone(),
                    headers,
                );
                self.waiting = Waiting::ForModTime;
                Step { report: None, action: Action::ReadModTime(self.plan.source.clone()) }
            },
        }
    }

    /// Has the current source compiled.
    fn start_compile(&mut self) -> (r: Step)
        requires
            old(self).sound(),
            old(self)@.phase == Phase::PerFileCompile,
        ensures
            final(self).sound(),
            (final(self)@, r@) == old(self)@.start_compile(),
    {
        self.unchanged = false;
        let label = match &self.plan.label {
            Err(e) => Err(e.duplicate()),
            Ok(name) => Ok(status_line("\t[CC]: ", name.as_str())),
        };
        match label {
            Err(e) => self.fail(e, None),
            Ok(line) => {
                let planned = match &self.plan.compile {
                    Err(e) => Err(e.duplicate()),
                    Ok(invocation) => Ok(
                        Invocation {
                            program: invocation.program.clone(),
                            args: copy_texts(&invocation.args),
                            output_dir: invocation.output_dir.clone(),
                        },
                    ),
                };
                match planned {
                    Err(e) => self.fail(e, None),
                    Ok(invocation) => {
                        self.waiting = Waiting::ForCompile;
                        Step { report: Some(line), action: Action::Compile(invocation) }
                    },
                }
            },
        }
    }

    /// Takes the instant of the file that was asked about.
    fn observed(&mut self, time: Option<i128>) -> (r: Step)
        requires
            old(self).sound(),
            old(self)@.phase == Phase::PerFileCompile,
            old(self)@.waiting == Waiting::ForModTime,
        ensures
            final(self).sound(),
            (final(self)@, r@) == old(self)@.observed(time),
    {
        self.check.observe(time);
        match self.check.verdict() {
            None => {
                let next = self.check.next_path().unwrap().clone();
                Step { report: None, action: Action::ReadModTime(next) }
            },
            Some(false) => {
                let count = self.sources.len();
                assert(self.index < count);
                let index = self.index + 1;
                self.begin(index, None)
            },
            Some(true) => self.start_compile(),
        }
    }

    /// Takes the end of the compile of the current source.
    fn compiled(&mut self, out: ProcessOutput) -> (r: Step)
        requires
            old(self).sound(),
            old(self)@.phase == Phase::PerFileCompile,
        ensures
            final(self).sound(),
            (final(self)@, r@) == old(self)@.compiled(out@),
    {
        match read_complaint(out) {
            Err(e) => self.fail(e, None),
            Ok(report) => {
                let count = self.sources.len();
                assert(self.index < count);
                let index = self.index + 1;
                self.begin(index, report)
            },
        }
    }

    /// Decides whether to link, once every source was gone through.
    fn decide_link(&mut self) -> (r: Step)
        requires
            old(self).sound(),
            old(self)@.phase == Phase::LinkDecision,
        ensures
            final(self).sound(),
            (final(self)@, r@) == old(self)@.decide_link(),
    {
        if self.unchanged {
            self.phase = Phase::Done;
            return Step { report: None, action: Action::Finish(Ok(())) };
        }
        match plan_link(&self.compiler, &self.build_dir, &self.name, &self.objects) {
            Err(e) => self.fail(e, None),
            Ok(invocation) => {
                self.phase = Phase::Linking;
                Step {
                    report: Some(status_line("\t[LINK]: ", self.name.as_str())),
                    action: Action::Link(invocation),
                }
            },
        }
    }

    /// Takes the end of the link.
    fn linked(&mut self, out: ProcessOutput) -> (r: Step)
        requires
            old(self).sound(),
            old(self)@.phase == Phase::Linking,
        ensures
            final(self).sound(),
            (final(self)@, r@) == old(self)@.linked(out@),
    {
        match read_complaint(out) {
            Err(e) => self.fail(e, None),
            Ok(report) => {
                self.phase = Phase::Done;
                Step { report, action: Action::Finish(Ok(())) }
            },
        }
    }

    /// How the build ended, once it is over: `Ok` unless it was given up.
    pub fn outcome(&self) -> (r: Result<(), Error>)
        ensures
            crate::error::result_view(r) == self@.outcome(),
    {
        match &self.failure {
            Some(e) => Err(e.duplicate()),
            None => Ok(()),
        }
    }

    /// Takes the event that tells how the last action went, moves the build
    /// on and hands out the next step.
    pub fn step(&mut self, event: Event) -> (r: Step)
        requires
            old(self).wf(),
        ensures
            final(self).wf(),
            (final(self)@, r@) == old(self)@.step(event@),
    {
        proof {
            lemma_step_consistent(self@, event@);
        }
        if self.phase == Phase::Done || self.phase == Phase::Failed {
            return Step { report: None, action: Action::Finish(self.outcome()) };
        }
        match event {
            Event::Refused(why) => self.fail(Error::Custom(why), None),
            Event::Discovered(entries) => {
                if self.phase == Phase::Scanning {
                    self.sources = get_source_files(&entries);
                    self.begin(0, None)
                } else {
                    self.fail(Error::UnexpectedEvent, None)
                }
            },
            Event::Exited(out) => {
                if self.phase == Phase::PerFileCompile && self.waiting == Waiting::ForScan {
                    self.scanned(out)
                } else if self.phase == Phase::PerFileCompile && self.waiting
                    == Waiting::ForCompile {
                    self.compiled(out)
                } else if self.phase == Phase::Linking {
                    self.linked(out)
                } else {
                    self.fail(Error::UnexpectedEvent, None)
                }
            },
            Event::ModTime(time) => {
                if self.phase == Phase::PerFileCompile && self.waiting == Waiting::ForModTime {
                    self.observed(time)
                } else {
                    self.fail(Error::UnexpectedEvent, None)
                }
            },
            Event::Resume => {
                if self.phase == Phase::LinkDecision {
                    self.decide_link()
                } else {
                    self.fail(Error::UnexpectedEvent, None)
                }
            },
        }
    }
}

} // verus!
