//! What a target is built from: the sources found under its roots and the
//! header directories that it names, each held as a set, and the plan that
//! follows from them for one source and for the link.

use crate::config::ExecConfig;
use crate::deps::{scan_args, scan_arguments};
use crate::error::{Error, ErrorView};
use crate::gcc::{
    directory_flag, output_for, Compiler, CompilerCommand, CompilerView, Invocation,
    InvocationView,
};
use crate::path::{extension, extension_of, prefix_stripped, push, pushed, strip_prefix};
use crate::text::{copy_texts, opt_text, texts};
use vstd::prelude::*;
use vstd::string::StringExecFns;

verus! {

/// `set` with `path` in it: appended where it was missing.
pub open spec fn added(set: Seq<Seq<char>>, path: Seq<char>) -> Seq<Seq<char>> {
    if set.contains(path) {
        set
    } else {
        set.push(path)
    }
}

/// The paths of `list` as a set: each once, in the order in which they
/// first occur.
pub open spec fn distinct(list: Seq<Seq<char>>) -> Seq<Seq<char>>
    decreases list.len(),
{
    if list.len() == 0 {
        Seq::empty()
    } else {
        added(distinct(list.drop_last()), list.last())
    }
}

/// Adding to a set keeps it a set, and adds the one path and no other.
pub proof fn lemma_added(set: Seq<Seq<char>>, path: Seq<char>)
    requires
        set.no_duplicates(),
    ensures
        added(set, path).no_duplicates(),
        forall|p: Seq<char>| added(set, path).contains(p) <==> (set.contains(p) || p == path),
{
    let after = added(set, path);
    if !set.contains(path) {
        assert(after[set.len() as int] == path);
        assert forall|p: Seq<char>| set.contains(p) implies after.contains(p) by {
            let i = choose|i: int| 0 <= i < set.len() && set[i] == p;
            assert(after[i] == p);
        }
    }
}

/// A list held as a set has no path twice and has exactly the paths of the
/// list.
pub proof fn lemma_distinct(list: Seq<Seq<char>>)
    ensures
        distinct(list).no_duplicates(),
        forall|p: Seq<char>| distinct(list).contains(p) <==> list.contains(p),
    decreases list.len(),
{
    if list.len() > 0 {
        let front = list.drop_last();
        lemma_distinct(front);
        lemma_added(distinct(front), list.last());
        assert forall|p: Seq<char>| list.contains(p) <==> (front.contains(p) || p
            == list.last()) by {
            if list.contains(p) {
                let i = choose|i: int| 0 <= i < list.len() && list[i] == p;
                if i < front.len() {
                    assert(front[i] == p);
                }
            }
        }
    }
}

/// Whether `set` holds `path`.
pub fn holds(set: &Vec<String>, path: &String) -> (r: bool)
    ensures
        r == texts(set@).contains(path@),
{
    let mut i: usize = 0;
    while i < set.len()
        invariant
            i <= set.len(),
            forall|j: int| 0 <= j < i ==> texts(set@)[j] != path@,
        decreases set.len() - i,
    {
        if set[i] == *path {
            assert(texts(set@)[i as int] == path@);
            return true;
        }
        i += 1;
    }
    false
}

/// Puts `path` into `set` unless it is there.
pub fn insert(set: &mut Vec<String>, path: String)
    ensures
        texts(final(set)@) == added(texts(old(set)@), path@),
{
    if !holds(set, &path) {
        set.push(path);
    }
}

/// One entry met while the roots of a target were walked.
#[derive(Debug)]
pub struct WalkEntry {
    /// The path of the entry.
    pub path: String,
    /// Whether the entry is a regular file.
    pub is_file: bool,
}

/// The mathematical form of a [`WalkEntry`].
pub struct WalkEntryView {
    pub path: Seq<char>,
    pub is_file: bool,
}

impl View for WalkEntry {
    type V = WalkEntryView;

    open spec fn view(&self) -> WalkEntryView {
        WalkEntryView { path: self.path@, is_file: self.is_file }
    }
}

/// The mathematical form of a list of entries.
pub open spec fn entry_views(entries: Seq<WalkEntry>) -> Seq<WalkEntryView> {
    Seq::new(entries.len(), |i: int| entries[i]@)
}

/// The extension that marks a source.
pub open spec fn source_extension() -> Seq<char> {
    seq!['c']
}

/// Whether an entry is a source: a regular file with the extension of
/// sources.
pub open spec fn is_source(entry: WalkEntryView) -> bool {
    entry.is_file && extension_of(entry.path) == Some(source_extension())
}

/// The sources among `entries`, as a set.
pub open spec fn source_files(entries: Seq<WalkEntryView>) -> Seq<Seq<char>>
    decreases entries.len(),
{
    if entries.len() == 0 {
        Seq::empty()
    } else if is_source(entries.last()) {
        added(source_files(entries.drop_last()), entries.last().path)
    } else {
        source_files(entries.drop_last())
    }
}

/// Whether `ext`, the extension of a path if it has one, marks a source.
pub fn marks_source(ext: &Option<String>) -> (r: bool)
    ensures
        r == (opt_text(*ext) == Some(source_extension())),
{
    proof {
        reveal_strlit("c");
    }
    assert("c"@ == source_extension());
    match ext {
        Some(found) => {
            let wanted = String::from_str("c");
            *found == wanted
        },
        None => false,
    }
}

/// Picks the sources among the entries met under the roots of a target:
/// the regular files with the extension of sources, each path once.
pub fn get_source_files(entries: &Vec<WalkEntry>) -> (r: Vec<String>)
    ensures
        texts(r@) == source_files(entry_views(entries@)),
{
    let mut found: Vec<String> = Vec::new();
    let mut i: usize = 0;
    while i < entries.len()
        invariant
            i <= entries.len(),
            texts(found@) == source_files(entry_views(entries@).take(i as int)),
        decreases entries.len() - i,
    {
        proof {
            let next = entry_views(entries@).take(i + 1);
            assert(next.drop_last() == entry_views(entries@).take(i as int));
        }
        if entries[i].is_file {
            let ext = extension(entries[i].path.as_str());
            if marks_source(&ext) {
                insert(&mut found, entries[i].path.clone());
            }
        }
        i += 1;
    }
    assert(entry_views(entries@).take(i as int) == entry_views(entries@));
    found
}

/// The header directories that a target names.
pub open spec fn named_dirs(config: ExecConfig) -> Seq<Seq<char>> {
    match config.include_dirs {
        Some(dirs) => texts(dirs@),
        None => Seq::empty(),
    }
}

/// The header directories of a target, as a set.
pub fn get_include_paths(exec_config: &ExecConfig) -> (r: Vec<String>)
    ensures
        texts(r@) == distinct(named_dirs(*exec_config)),
{
    let mut found: Vec<String> = Vec::new();
    match &exec_config.include_dirs {
        None => found,
        Some(dirs) => {
            let mut i: usize = 0;
            while i < dirs.len()
                invariant
                    i <= dirs.len(),
                    texts(found@) == distinct(texts(dirs@).take(i as int)),
                decreases dirs.len() - i,
            {
                proof {
                    let next = texts(dirs@).take(i + 1);
                    assert(next.drop_last() == texts(dirs@).take(i as int));
                }
                insert(&mut found, dirs[i].clone());
                i += 1;
            }
            assert(texts(dirs@).take(i as int) == texts(dirs@));
            found
        },
    }
}

/// The prefix that says "from the current directory".
pub open spec fn current_dir() -> Seq<char> {
    seq!['.', '/']
}

/// The path under which a source that was found at `found` is handed to
/// the toolchain: `found` without a leading current directory.
pub open spec fn source_path(found: Seq<char>) -> Seq<char> {
    match prefix_stripped(found, current_dir()) {
        Some(rest) => rest,
        None => found,
    }
}

/// The object of the source found at `found`, where it has one: the path
/// of the source below the build directory, with the object suffix.
pub open spec fn object_path(build_dir: Seq<char>, found: Seq<char>) -> Option<Seq<char>> {
    output_for(CompilerCommand::COMPILE, pushed(build_dir, source_path(found)))
}

/// Everything that is settled about one source before the toolchain is
/// asked anything.
#[derive(Debug)]
pub struct SourcePlan {
    /// The source, as it is handed to the toolchain.
    pub source: String,
    /// The object that belongs to the source.
    pub object: String,
    /// The arguments of the dependency listing.
    pub scan: Vec<String>,
    /// The file name of the source, for the status line of its compile.
    pub label: Result<String, Error>,
    /// What to run in order to compile the source.
    pub compile: Result<Invocation, Error>,
}

/// The mathematical form of a [`SourcePlan`].
pub struct SourcePlanView {
    pub source: Seq<char>,
    pub object: Seq<char>,
    pub scan: Seq<Seq<char>>,
    pub label: Result<Seq<char>, ErrorView>,
    pub compile: Result<InvocationView, ErrorView>,
}

impl View for SourcePlan {
    type V = SourcePlanView;

    open spec fn view(&self) -> SourcePlanView {
        SourcePlanView {
            source: self.source@,
            object: self.object@,
            scan: texts(self.scan@),
            label: crate::error::result_view(self.label),
            compile: crate::error::result_view(self.compile),
        }
    }
}

/// The mathematical form of a plan, or of the failure in its place.
pub open spec fn plan_view(r: Result<SourcePlan, Error>) -> Result<SourcePlanView, ErrorView> {
    match r {
        Ok(plan) => Ok(plan@),
        Err(e) => Err(e@),
    }
}

/// The compile of `source` into `object`.
pub open spec fn compile_command(
    compiler: Seq<char>,
    includes: Seq<Seq<char>>,
    source: Seq<char>,
    object: Seq<char>,
) -> CompilerView {
    CompilerView {
        compiler,
        command: CompilerCommand::COMPILE,
        output_file: object,
        input_files: seq![source],
        include_files: includes,
    }
}

/// The plan for the source found at `found`: its object lies below the
/// build directory, its dependency listing gets the header directory flags
/// of its compile, and its compile is a command with the source as its one
/// input. There is no plan where the object path cannot be derived.
pub open spec fn source_plan(
    compiler: Seq<char>,
    build_dir: Seq<char>,
    includes: Seq<Seq<char>>,
    found: Seq<char>,
) -> Result<SourcePlanView, ErrorView> {
    let source = source_path(found);
    match object_path(build_dir, found) {
        None => Err(ErrorView::InvalidOutputName),
        Some(object) => {
            let command = compile_command(compiler, includes, source, object);
            Ok(
                SourcePlanView {
                    source,
                    object,
                    scan: scan_args(command.include_flags(), source),
                    label: command.input_filename(),
                    compile: command.invocation(),
                },
            )
        },
    }
}

/// The compile that is planned for a source and the link that is planned
/// for objects have the shape of their kind.
pub proof fn lemma_planned_commands_well_formed(
    compiler: Seq<char>,
    includes: Seq<Seq<char>>,
    source: Seq<char>,
    object: Seq<char>,
    objects: Seq<Seq<char>>,
    output: Seq<char>,
)
    ensures
        compile_command(compiler, includes, source, object).well_formed(),
        objects.len() >= 1 ==> link_command(compiler, objects, output).well_formed(),
{
}

/// The dependency listing of a source is asked for with the header
/// directory flags of its compile, flag for flag, and for the same source.
pub proof fn lemma_scan_uses_compile_flags(
    compiler: Seq<char>,
    build_dir: Seq<char>,
    includes: Seq<Seq<char>>,
    found: Seq<char>,
)
    ensures
        source_plan(compiler, build_dir, includes, found) matches Ok(plan) ==> (plan.compile
            matches Ok(invocation) ==> {
            &&& plan.scan.take(includes.len() as int) == includes.map_values(
                |dir: Seq<char>| directory_flag(dir),
            )
            &&& invocation.args.take(includes.len() as int) == plan.scan.take(
                includes.len() as int,
            )
            &&& plan.scan[includes.len() as int] == plan.source
            &&& invocation.args[includes.len() as int] == plan.source
        }),
{
}

/// Plans the work on the source found at `found`.
pub fn plan_source(compiler: &String, build_dir: &String, includes: &Vec<String>, found: &String)
    -> (r: Result<SourcePlan, Error>)
    ensures
        plan_view(r) == source_plan(compiler@, build_dir@, texts(includes@), found@),
{
    proof {
        reveal_strlit("./");
    }
    assert("./"@ == current_dir());
    let source = match strip_prefix(found.as_str(), "./") {
        Some(rest) => rest,
        None => found.clone(),
    };
    let mut output_path = push(build_dir.as_str(), source.as_str());
    let mut dirs: Vec<&String> = Vec::new();
    let mut i: usize = 0;
    while i < includes.len()
        invariant
            i <= includes.len(),
            crate::text::ref_texts(dirs@) == texts(includes@).take(i as int),
        decreases includes.len() - i,
    {
        dirs.push(&includes[i]);
        assert(texts(includes@).take(i + 1) == texts(includes@).take(i as int).push(
            includes@[i as int]@,
        ));
        i += 1;
    }
    assert(texts(includes@).take(i as int) == texts(includes@));
    let fresh = Compiler::builder(compiler, CompilerCommand::COMPILE);
    let with_input = match fresh.add_input(source.clone()) {
        Ok(b) => b,
        Err(e) => {
            return Err(e);
        },
    };
    let with_dirs = with_input.add_includes(&mut dirs);
    let with_output = match with_dirs.set_output(&mut output_path) {
        Ok(b) => b,
        Err(e) => {
            return Err(e);
        },
    };
    let gcc = match with_output.build() {
        Ok(c) => c,
        Err(e) => {
            return Err(e);
        },
    };
    let scan = scan_arguments(gcc.get_include_flags(), source.as_str());
    let object = gcc.get_owned_output_file();
    let label = gcc.get_input_filename();
    let compile = gcc.invocation();
    Ok(SourcePlan { source, object, scan, label, compile })
}

/// The link of `objects` into the executable called `name` in the build
/// directory.
pub open spec fn link_command(
    compiler: Seq<char>,
    objects: Seq<Seq<char>>,
    output: Seq<char>,
) -> CompilerView {
    CompilerView {
        compiler,
        command: CompilerCommand::LINK,
        output_file: output,
        input_files: objects,
        include_files: Seq::empty(),
    }
}

/// What to run in order to link `objects` into the executable called
/// `name`, which lies in the build directory.
pub open spec fn link_plan(
    compiler: Seq<char>,
    build_dir: Seq<char>,
    name: Seq<char>,
    objects: Seq<Seq<char>>,
) -> Result<InvocationView, ErrorView> {
    match output_for(CompilerCommand::LINK, pushed(build_dir, name)) {
        None => Err(ErrorView::InvalidOutputName),
        Some(output) => link_command(compiler, objects, output).invocation(),
    }
}

/// Plans the link of `objects` into the executable called `name`.
pub fn plan_link(compiler: &String, build_dir: &String, name: &String, objects: &Vec<String>) -> (r:
    Result<Invocation, Error>)
    ensures
        crate::error::result_view(r) == link_plan(
            compiler@,
            build_dir@,
            name@,
            texts(objects@),
        ),
{
    let mut inputs = copy_texts(objects);
    let mut output_path = push(build_dir.as_str(), name.as_str());
    let fresh = Compiler::builder(compiler, CompilerCommand::LINK);
    let with_inputs = match fresh.add_inputs(&mut inputs) {
        Ok(b) => b,
        Err(e) => {
            return Err(e);
        },
    };
    let with_output = match with_inputs.set_output(&mut output_path) {
        Ok(b) => b,
        Err(e) => {
            return Err(e);
        },
    };
    let gcc = match with_output.build() {
        Ok(c) => c,
        Err(e) => {
            return Err(e);
        },
    };
    gcc.invocation()
}

} // verus!
