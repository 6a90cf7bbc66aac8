//! The command descriptor: one invocation of the toolchain, to compile one
//! source or to link objects, put together step by step and checked on the
//! way.

use crate::error::{result_view, Error, ErrorView};
use crate::path::{file_name, file_name_of, file_name_set, parent, parent_of, set_file_name};
use crate::text::{copy_texts, join_with, joined, ref_texts, texts};
use vstd::prelude::*;
use vstd::string::StringExecFns;

verus! {

/// What the toolchain is asked to do.
#[allow(non_camel_case_types)]
#[derive(Clone, Copy, Debug, PartialEq, Eq, Structural)]
pub enum CompilerCommand {
    /// Turn one source into one object.
    COMPILE,
    /// Turn objects into an executable.
    LINK,
}

/// A finished description of one toolchain invocation.
#[derive(Debug)]
pub struct Compiler<'a> {
    compiler: String,
    command: CompilerCommand,
    output_file: String,
    input_files: Vec<String>,
    include_files: Vec<&'a String>,
}

/// A description of one toolchain invocation that is still being put
/// together.
#[derive(Debug)]
pub struct CompilerBuilder<'a> {
    compiler: String,
    command: CompilerCommand,
    output_file: Option<String>,
    input_files: Vec<String>,
    include_files: Vec<&'a String>,
}

/// The mathematical form of a [`Compiler`].
pub struct CompilerView {
    pub compiler: Seq<char>,
    pub command: CompilerCommand,
    pub output_file: Seq<char>,
    pub input_files: Seq<Seq<char>>,
    pub include_files: Seq<Seq<char>>,
}

/// The mathematical form of a [`CompilerBuilder`].
pub struct BuilderView {
    pub compiler: Seq<char>,
    pub command: CompilerCommand,
    pub output_file: Option<Seq<char>>,
    pub input_files: Seq<Seq<char>>,
    pub include_files: Seq<Seq<char>>,
}

/// The program to start, its arguments, and the directory that must exist
/// before it is started.
#[derive(Debug)]
pub struct Invocation {
    pub program: String,
    pub args: Vec<String>,
    pub output_dir: String,
}

/// The mathematical form of an [`Invocation`].
pub struct InvocationView {
    pub program: Seq<char>,
    pub args: Seq<Seq<char>>,
    pub output_dir: Seq<char>,
}

impl View for Invocation {
    type V = InvocationView;

    open spec fn view(&self) -> InvocationView {
        InvocationView {
            program: self.program@,
            args: texts(self.args@),
            output_dir: self.output_dir@,
        }
    }
}

impl<'a> View for Compiler<'a> {
    type V = CompilerView;

    closed spec fn view(&self) -> CompilerView {
        CompilerView {
            compiler: self.compiler@,
            command: self.command,
            output_file: self.output_file@,
            input_files: texts(self.input_files@),
            include_files: ref_texts(self.include_files@),
        }
    }
}

impl<'a> View for CompilerBuilder<'a> {
    type V = BuilderView;

    closed spec fn view(&self) -> BuilderView {
        BuilderView {
            compiler: self.compiler@,
            command: self.command,
            output_file: match self.output_file {
                Some(path) => Some(path@),
                None => None,
            },
            input_files: texts(self.input_files@),
            include_files: ref_texts(self.include_files@),
        }
    }
}

/// The suffix that marks an object file.
pub open spec fn object_suffix() -> Seq<char> {
    seq!['.', 'o']
}

/// The flag that hands one header directory to the toolchain.
pub open spec fn directory_flag(dir: Seq<char>) -> Seq<char> {
    seq!['-', 'I'] + dir
}

/// The output path that a command of kind `command` takes when `path` is
/// requested: for a compile, `path` with the object suffix appended to its
/// final component; for a link, `path` itself. There is none where `path`
/// has no final component.
pub open spec fn output_for(command: CompilerCommand, path: Seq<char>) -> Option<Seq<char>> {
    match file_name_of(path) {
        None => None,
        Some(name) => Some(
            match command {
                CompilerCommand::COMPILE => file_name_set(path, name + object_suffix()),
                CompilerCommand::LINK => path,
            },
        ),
    }
}

impl CompilerView {
    /// Whether the command has the shape of its kind: a compile has exactly
    /// one input; a link has at least one input and no header directory.
    pub open spec fn well_formed(self) -> bool {
        match self.command {
            CompilerCommand::COMPILE => self.input_files.len() == 1,
            CompilerCommand::LINK => self.input_files.len() >= 1 && self.include_files.len() == 0,
        }
    }

    /// The inputs, separated by single spaces.
    pub open spec fn input_text(self) -> Seq<char> {
        joined(self.input_files, seq![' '])
    }

    /// One flag for each header directory, in the order in which they were
    /// added.
    pub open spec fn include_flags(self) -> Seq<Seq<char>> {
        self.include_files.map_values(|dir: Seq<char>| directory_flag(dir))
    }

    /// The flags of the header directories, separated by single spaces.
    pub open spec fn include_text(self) -> Seq<char> {
        joined(self.include_flags(), seq![' '])
    }

    /// The file name of the one input.
    pub open spec fn input_filename(self) -> Result<Seq<char>, ErrorView> {
        if self.input_files.len() > 1 {
            Err(ErrorView::MultipleInputs)
        } else if self.input_files.len() == 0 {
            Err(ErrorView::NoInputs)
        } else {
            match file_name_of(self.input_files[0]) {
                None => Err(ErrorView::InvalidInputName),
                Some(name) => Ok(name),
            }
        }
    }

    /// The arguments handed to the toolchain, each path and each flag as an
    /// argument of its own. A compile gets the flags of the header
    /// directories, its input, `-c`, `-o` and the output; a link gets its
    /// inputs, `-o` and the output.
    pub open spec fn arguments(self) -> Seq<Seq<char>> {
        match self.command {
            CompilerCommand::COMPILE => self.include_flags() + self.input_files + seq![
                seq!['-', 'c'],
                seq!['-', 'o'],
                self.output_file,
            ],
            CompilerCommand::LINK => self.input_files + seq![seq!['-', 'o'], self.output_file],
        }
    }

    /// What has to be run for this command, or why it cannot be run.
    pub open spec fn invocation(self) -> Result<InvocationView, ErrorView> {
        if self.command == CompilerCommand::COMPILE && self.input_files.len() > 1 {
            Err(ErrorView::TooManyInputs)
        } else {
            match parent_of(self.output_file) {
                None => Err(ErrorView::NoOutputParent),
                Some(dir) => Ok(
                    InvocationView {
                        program: self.compiler,
                        args: self.arguments(),
                        output_dir: dir,
                    },
                ),
            }
        }
    }
}

impl BuilderView {
    /// A builder for `compiler` and `command` to which nothing was added.
    pub open spec fn fresh(compiler: Seq<char>, command: CompilerCommand) -> BuilderView {
        BuilderView {
            compiler,
            command,
            output_file: None,
            input_files: Seq::empty(),
            include_files: Seq::empty(),
        }
    }

    /// Whether the builder holds no more inputs than its kind takes: a
    /// compile takes a single one.
    pub open spec fn within_kind(self) -> bool {
        self.command == CompilerCommand::COMPILE ==> self.input_files.len() <= 1
    }

    /// Whether one more input is refused: a compile that holds an input
    /// takes no other.
    pub open spec fn full(self) -> bool {
        self.command == CompilerCommand::COMPILE && self.input_files.len() >= 1
    }

    /// Whether `inputs` are refused as a batch: a compile takes none that
    /// would leave it with more than one input in all.
    pub open spec fn refuses(self, inputs: Seq<Seq<char>>) -> bool {
        self.command == CompilerCommand::COMPILE && self.input_files.len() + inputs.len() > 1
    }

    /// What becomes of the builder when one more input is handed to it.
    pub open spec fn add_input(self, input: Seq<char>) -> Result<BuilderView, ErrorView> {
        if self.full() {
            Err(ErrorView::TooManyInputs)
        } else {
            Ok(self.with_inputs(seq![input]))
        }
    }

    /// What becomes of the builder when a batch of inputs is handed to it.
    pub open spec fn add_inputs(self, inputs: Seq<Seq<char>>) -> Result<BuilderView, ErrorView> {
        if self.refuses(inputs) {
            Err(ErrorView::TooManyInputs)
        } else {
            Ok(self.with_inputs(inputs))
        }
    }

    /// What becomes of the builder when `path` is requested as its output.
    pub open spec fn set_output(self, path: Seq<char>) -> Result<BuilderView, ErrorView> {
        match output_for(self.command, path) {
            None => Err(ErrorView::InvalidOutputName),
            Some(output) => Ok(self.with_output(output)),
        }
    }

    /// The builder after `inputs` were appended.
    pub open spec fn with_inputs(self, inputs: Seq<Seq<char>>) -> BuilderView {
        BuilderView { input_files: self.input_files + inputs, ..self }
    }

    /// The builder after `dirs` were appended to the header directories.
    pub open spec fn with_includes(self, dirs: Seq<Seq<char>>) -> BuilderView {
        BuilderView { include_files: self.include_files + dirs, ..self }
    }

    /// The builder after its output was set to `path`.
    pub open spec fn with_output(self, path: Seq<char>) -> BuilderView {
        BuilderView { output_file: Some(path), ..self }
    }

    /// The finished command, where the output was set.
    pub open spec fn built(self) -> Result<CompilerView, ErrorView> {
        match self.output_file {
            None => Err(ErrorView::OutputNotSet),
            Some(path) => Ok(
                CompilerView {
                    compiler: self.compiler,
                    command: self.command,
                    output_file: path,
                    input_files: self.input_files,
                    include_files: self.include_files,
                },
            ),
        }
    }
}

/// A compile takes one input and refuses a second; a link takes as many
/// as it is given.
pub proof fn lemma_inputs_by_kind(compiler: Seq<char>, first: Seq<char>, second: Seq<char>)
    ensures
        BuilderView::fresh(compiler, CompilerCommand::COMPILE).add_input(first) is Ok,
        BuilderView::fresh(compiler, CompilerCommand::COMPILE).add_input(first)->Ok_0.add_input(
            second,
        ) == Err::<BuilderView, ErrorView>(ErrorView::TooManyInputs),
        BuilderView::fresh(compiler, CompilerCommand::LINK).add_input(first) is Ok,
        BuilderView::fresh(compiler, CompilerCommand::LINK).add_input(first)->Ok_0.add_input(
            second,
        ) == Ok::<BuilderView, ErrorView>(
            BuilderView::fresh(compiler, CompilerCommand::LINK).with_inputs(seq![first, second]),
        ),
{
    let link = BuilderView::fresh(compiler, CompilerCommand::LINK);
    assert(link.with_inputs(seq![first]).with_inputs(seq![second]) == link.with_inputs(
        seq![first, second],
    )) by {
        assert(Seq::<Seq<char>>::empty() + seq![first] + seq![second] == Seq::<
            Seq<char>,
        >::empty() + seq![first, second]);
    }
}

/// A builder never holds more inputs than its kind takes: a new one does
/// not, and whatever is done to one that does not leaves one that does
/// not. A compile that was finished has at most one input.
pub proof fn lemma_builder_within_kind(
    builder: BuilderView,
    input: Seq<char>,
    inputs: Seq<Seq<char>>,
    dirs: Seq<Seq<char>>,
    path: Seq<char>,
)
    requires
        builder.within_kind(),
    ensures
        BuilderView::fresh(builder.compiler, builder.command).within_kind(),
        builder.add_input(input) matches Ok(next) ==> next.within_kind(),
        builder.add_inputs(inputs) matches Ok(next) ==> next.within_kind(),
        builder.with_includes(dirs).within_kind(),
        builder.set_output(path) matches Ok(next) ==> next.within_kind(),
        builder.built() matches Ok(command) ==> (command.command == CompilerCommand::COMPILE
            ==> command.input_files.len() <= 1),
{
}

/// A command of the right shape can be run as far as its inputs go: what
/// stands in the way can only be an output without a parent directory.
pub proof fn lemma_well_formed_runs(command: CompilerView)
    requires
        command.well_formed(),
    ensures
        command.invocation() is Err ==> command.invocation() == Err::<InvocationView, ErrorView>(
            ErrorView::NoOutputParent,
        ),
        command.command == CompilerCommand::COMPILE ==> command.input_filename()
            != Err::<Seq<char>, ErrorView>(ErrorView::MultipleInputs) && command.input_filename()
            != Err::<Seq<char>, ErrorView>(ErrorView::NoInputs),
{
}

/// Whatever is added to a builder, it cannot be finished before its output
/// is set, and once its output is set it can.
pub proof fn lemma_output_needed(builder: BuilderView, path: Seq<char>)
    ensures
        builder.output_file is None ==> builder.built() == Err::<CompilerView, ErrorView>(
            ErrorView::OutputNotSet,
        ),
        builder.set_output(path) matches Ok(set) ==> set.built() is Ok,
{
}

/// The name of the object made from a file called `name`: `name` followed
/// by the object suffix.
pub fn object_file_name(name: &str) -> (r: String)
    ensures
        r@ == name@ + object_suffix(),
{
    let mut out = String::from_str(name);
    proof {
        reveal_strlit(".o");
    }
    out.append(".o");
    out
}

/// The flag that hands the header directory `dir` to the toolchain.
pub fn include_flag(dir: &str) -> (r: String)
    ensures
        r@ == directory_flag(dir@),
{
    let mut out = String::from_str("-I");
    proof {
        reveal_strlit("-I");
    }
    out.append(dir);
    out
}

impl<'a> Compiler<'a> {
    /// Starts a description for the toolchain `compiler` and the kind
    /// `command`, with no input, no header directory and no output.
    pub fn builder(compiler: &String, command: CompilerCommand) -> (r: CompilerBuilder<'a>)
        ensures
            r@ == BuilderView::fresh(compiler@, command),
    {
        let built = CompilerBuilder {
            compiler: compiler.clone(),
            command,
            output_file: None,
            input_files: Vec::new(),
            include_files: Vec::new(),
        };
        assert(built@.input_files == Seq::<Seq<char>>::empty());
        assert(built@.include_files == Seq::<Seq<char>>::empty());
        built
    }

    /// The file name of the one input: the final component of its path.
    /// Fails where there is not exactly one input, or where its path has no
    /// final component.
    pub fn get_input_filename(&self) -> (r: Result<String, Error>)
        ensures
            result_view(r) == self@.input_filename(),
    {
        if self.input_files.len() > 1 {
            return Err(Error::MultipleInputs);
        }
        if self.input_files.len() == 0 {
            return Err(Error::NoInputs);
        }
        match file_name(self.input_files[0].as_str()) {
            None => Err(Error::InvalidInputName),
            Some(name) => Ok(name),
        }
    }

    /// The inputs, separated by single spaces.
    pub fn get_input_str(&self) -> (r: String)
        ensures
            r@ == self@.input_text(),
    {
        proof {
            reveal_strlit(" ");
        }
        assert(" "@ == seq![' ']);
        join_with(&self.input_files, " ")
    }

    /// One `-I` flag for each header directory, in the order in which they
    /// were added.
    pub fn get_include_flags(&self) -> (r: Vec<String>)
        ensures
            texts(r@) == self@.include_flags(),
    {
        let mut flags: Vec<String> = Vec::new();
        let mut i: usize = 0;
        while i < self.include_files.len()
            invariant
                i <= self.include_files.len(),
                texts(flags@) == self@.include_flags().take(i as int),
            decreases self.include_files.len() - i,
        {
            let flag = include_flag(self.include_files[i].as_str());
            let ghost before = texts(flags@);
            flags.push(flag);
            assert(texts(flags@) == before.push(flag@));
            assert(self@.include_flags().take(i + 1) == self@.include_flags().take(i as int).push(
                flag@,
            ));
            i += 1;
        }
        assert(self@.include_flags().take(i as int) == self@.include_flags());
        flags
    }

    /// The flags of the header directories, separated by single spaces.
    pub fn get_include_str(&self) -> (r: String)
        ensures
            r@ == self@.include_text(),
    {
        proof {
            reveal_strlit(" ");
        }
        assert(" "@ == seq![' ']);
        let flags = self.get_include_flags();
        join_with(&flags, " ")
    }

    /// The output path.
    pub fn get_output_file(&self) -> (r: &String)
        ensures
            r@ == self@.output_file,
    {
        &self.output_file
    }

    /// A copy of the output path.
    pub fn get_owned_output_file(&self) -> (r: String)
        ensures
            r@ == self@.output_file,
    {
        self.output_file.clone()
    }

    /// The arguments handed to the toolchain, each path and each flag as an
    /// argument of its own.
    pub fn arguments(&self) -> (r: Vec<String>)
        ensures
            texts(r@) == self@.arguments(),
    {
        proof {
            reveal_strlit("-c");
            reveal_strlit("-o");
        }
        assert("-c"@ == seq!['-', 'c']);
        assert("-o"@ == seq!['-', 'o']);
        let mut inputs = copy_texts(&self.input_files);
        match self.command {
            CompilerCommand::COMPILE => {
                let mut args = self.get_include_flags();
                let ghost flags = texts(args@);
                args.append(&mut inputs);
                assert(texts(args@) == flags + self@.input_files);
                let ghost front = texts(args@);
                args.push(String::from_str("-c"));
                args.push(String::from_str("-o"));
                args.push(self.output_file.clone());
                assert(texts(args@) == front + seq![
                    seq!['-', 'c'],
                    seq!['-', 'o'],
                    self@.output_file,
                ]);
                args
            },
            CompilerCommand::LINK => {
                let ghost front = texts(inputs@);
                inputs.push(String::from_str("-o"));
                inputs.push(self.output_file.clone());
                assert(texts(inputs@) == front + seq![seq!['-', 'o'], self@.output_file]);
                inputs
            },
        }
    }

    /// What has to be run for this command: the toolchain, its arguments,
    /// and the parent directory of the output, which must exist before the
    /// toolchain is started. Fails for a compile with more than one input,
    /// and where the output path has no parent.
    pub fn invocation(&self) -> (r: Result<Invocation, Error>)
        ensures
            result_view(r) == self@.invocation(),
    {
        if self.command == CompilerCommand::COMPILE && self.input_files.len() > 1 {
            return Err(Error::TooManyInputs);
        }
        match parent(self.output_file.as_str()) {
            None => Err(Error::NoOutputParent),
            Some(dir) => Ok(
                Invocation {
                    program: self.compiler.clone(),
                    args: self.arguments(),
                    output_dir: dir,
                },
            ),
        }
    }
}

impl<'a> CompilerBuilder<'a> {
    /// Sets the output. A compile takes `output` with the object suffix
    /// appended to its final component, and leaves that path in `output`; a
    /// link takes `output` as it is. Fails where `output` has no final
    /// component.
    pub fn set_output(self, output: &mut String) -> (r: Result<Self, Error>)
        ensures
            result_view(r) == self@.set_output(old(output)@),
            r is Ok ==> output_for(self@.command, old(output)@) == Some(final(output)@),
            r is Err ==> final(output)@ == old(output)@,
    {
        let mut this = self;
        match file_name(output.as_str()) {
            Some(name) => {
                if this.command == CompilerCommand::COMPILE {
                    let object_name = object_file_name(name.as_str());
                    let renamed = set_file_name(output.as_str(), object_name.as_str());
                    *output = renamed;
                }
                this.output_file = Some(output.clone());
                Ok(this)
            },
            None => Err(Error::InvalidOutputName),
        }
    }

    /// Appends one input. A compile takes a single input: one that holds an
    /// input refuses another.
    pub fn add_input(self, input: String) -> (r: Result<Self, Error>)
        ensures
            result_view(r) == self@.add_input(input@),
    {
        let mut this = self;
        if this.command == CompilerCommand::COMPILE && this.input_files.len() >= 1 {
            return Err(Error::TooManyInputs);
        }
        let ghost before = texts(this.input_files@);
        this.input_files.push(input);
        assert(texts(this.input_files@) == before + seq![input@]);
        Ok(this)
    }

    /// Appends a batch of inputs and leaves `inputs` empty. A compile
    /// refuses a batch that would leave it with more than one input in all,
    /// and then `inputs` stays as it was.
    pub fn add_inputs(self, inputs: &mut Vec<String>) -> (r: Result<Self, Error>)
        ensures
            result_view(r) == self@.add_inputs(texts(old(inputs)@)),
            r is Ok ==> final(inputs)@.len() == 0,
            r is Err ==> final(inputs)@ == old(inputs)@,
    {
        let mut this = self;
        let held = this.input_files.len();
        let more = inputs.len();
        if this.command == CompilerCommand::COMPILE && (held > 1 || more > 1 || (held == 1 && more
            == 1)) {
            return Err(Error::TooManyInputs);
        }
        let ghost before = texts(this.input_files@);
        this.input_files.append(inputs);
        assert(texts(this.input_files@) == before + texts(old(inputs)@));
        Ok(this)
    }

    /// Appends header directories and leaves `includes` empty.
    pub fn add_includes(self, includes: &mut Vec<&'a String>) -> (r: Self)
        ensures
            r@ == self@.with_includes(ref_texts(old(includes)@)),
            final(includes)@.len() == 0,
    {
        let mut this = self;
        let ghost before = ref_texts(this.include_files@);
        this.include_files.append(includes);
        assert(ref_texts(this.include_files@) == before + ref_texts(old(includes)@));
        this
    }

    /// Finishes the description. Fails where no output was set.
    pub fn build(self) -> (r: Result<Compiler<'a>, Error>)
        ensures
            result_view(r) == self@.built(),
    {
        match self.output_file {
            None => Err(Error::OutputNotSet),
            Some(path) => Ok(
                Compiler {
                    command: self.command,
                    compiler: self.compiler,
                    output_file: path,
                    input_files: self.input_files,
                    include_files: self.include_files,
                },
            ),
        }
    }
}

} // verus!
