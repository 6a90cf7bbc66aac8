use cbuild::error::Error;
use cbuild::gcc::{include_flag, object_file_name, Compiler, CompilerCommand};

fn s(text: &str) -> String {
    String::from(text)
}

#[test]
fn compile_builder_refuses_a_second_input() {
    let cc = s("gcc");
    let one = Compiler::builder(&cc, CompilerCommand::COMPILE)
        .add_input(s("a.c"))
        .unwrap();
    let two = one.add_input(s("b.c"));
    assert_eq!(two.unwrap_err(), Error::TooManyInputs);
}

#[test]
fn link_builder_takes_a_second_input() {
    let cc = s("gcc");
    let mut out = s("build/app");
    let linked = Compiler::builder(&cc, CompilerCommand::LINK)
        .add_input(s("a.o"))
        .unwrap()
        .add_input(s("b.o"))
        .unwrap()
        .set_output(&mut out)
        .unwrap()
        .build()
        .unwrap();
    assert_eq!(linked.get_input_str(), "a.o b.o");
}

#[test]
fn compile_output_gets_the_object_suffix() {
    let cc = s("gcc");
    let mut out = s("build/a");
    let gcc = Compiler::builder(&cc, CompilerCommand::COMPILE)
        .add_input(s("a.c"))
        .unwrap()
        .set_output(&mut out)
        .unwrap()
        .build()
        .unwrap();
    assert_eq!(out, "build/a.o");
    assert_eq!(gcc.get_output_file(), "build/a.o");
    assert_eq!(gcc.get_owned_output_file(), "build/a.o");
}

#[test]
fn compile_output_keeps_the_name_of_the_source() {
    let cc = s("gcc");
    let mut out = s("build/src/main.c");
    let gcc = Compiler::builder(&cc, CompilerCommand::COMPILE)
        .set_output(&mut out)
        .unwrap()
        .build()
        .unwrap();
    assert_eq!(gcc.get_output_file(), "build/src/main.c.o");
}

#[test]
fn link_output_is_taken_as_it_is() {
    let cc = s("gcc");
    let mut out = s("build/app");
    let gcc = Compiler::builder(&cc, CompilerCommand::LINK)
        .set_output(&mut out)
        .unwrap()
        .build()
        .unwrap();
    assert_eq!(out, "build/app");
    assert_eq!(gcc.get_output_file(), "build/app");
}

#[test]
fn output_without_a_file_name_is_refused() {
    let cc = s("gcc");
    let mut out = s("build/..");
    let refused = Compiler::builder(&cc, CompilerCommand::COMPILE).set_output(&mut out);
    assert_eq!(refused.unwrap_err(), Error::InvalidOutputName);
    assert_eq!(out, "build/..");
    let mut empty = s("");
    let refused = Compiler::builder(&cc, CompilerCommand::LINK).set_output(&mut empty);
    assert_eq!(refused.unwrap_err(), Error::InvalidOutputName);
}

#[test]
fn build_without_output_is_refused() {
    let cc = s("gcc");
    let unfinished = Compiler::builder(&cc, CompilerCommand::COMPILE)
        .add_input(s("a.c"))
        .unwrap()
        .build();
    assert_eq!(unfinished.unwrap_err(), Error::OutputNotSet);
}

#[test]
fn compile_refuses_a_batch_of_two() {
    let cc = s("gcc");
    let mut batch = vec![s("a.c"), s("b.c")];
    let refused = Compiler::builder(&cc, CompilerCommand::COMPILE).add_inputs(&mut batch);
    assert_eq!(refused.unwrap_err(), Error::TooManyInputs);
    assert_eq!(batch, vec![s("a.c"), s("b.c")]);
}

#[test]
fn add_inputs_empties_the_batch() {
    let cc = s("gcc");
    let mut batch = vec![s("a.o"), s("b.o"), s("c.o")];
    let mut out = s("app");
    let gcc = Compiler::builder(&cc, CompilerCommand::LINK)
        .add_inputs(&mut batch)
        .unwrap()
        .set_output(&mut out)
        .unwrap()
        .build()
        .unwrap();
    assert!(batch.is_empty());
    assert_eq!(gcc.get_input_str(), "a.o b.o c.o");
}

#[test]
fn include_flags_keep_the_order_of_addition() {
    let cc = s("gcc");
    let first = s("inc");
    let second = s("third_party/inc");
    let mut dirs = vec![&first, &second];
    let mut out = s("build/a");
    let gcc = Compiler::builder(&cc, CompilerCommand::COMPILE)
        .add_input(s("a.c"))
        .unwrap()
        .add_includes(&mut dirs)
        .set_output(&mut out)
        .unwrap()
        .build()
        .unwrap();
    assert!(dirs.is_empty());
    assert_eq!(gcc.get_include_str(), "-Iinc -Ithird_party/inc");
}

#[test]
fn strings_of_an_empty_command_are_empty() {
    let cc = s("gcc");
    let mut out = s("app");
    let gcc = Compiler::builder(&cc, CompilerCommand::LINK)
        .set_output(&mut out)
        .unwrap()
        .build()
        .unwrap();
    assert_eq!(gcc.get_input_str(), "");
    assert_eq!(gcc.get_include_str(), "");
}

#[test]
fn input_filename_is_the_last_component() {
    let cc = s("gcc");
    let mut out = s("build/src/a.c");
    let gcc = Compiler::builder(&cc, CompilerCommand::COMPILE)
        .add_input(s("src/a.c"))
        .unwrap()
        .set_output(&mut out)
        .unwrap()
        .build()
        .unwrap();
    assert_eq!(gcc.get_input_filename().unwrap(), "a.c");
}

#[test]
fn input_filename_needs_exactly_one_input() {
    let cc = s("gcc");
    let mut out = s("app");
    let none = Compiler::builder(&cc, CompilerCommand::LINK)
        .set_output(&mut out)
        .unwrap()
        .build()
        .unwrap();
    assert_eq!(none.get_input_filename().unwrap_err(), Error::NoInputs);
    let mut out = s("app");
    let two = Compiler::builder(&cc, CompilerCommand::LINK)
        .add_input(s("a.o"))
        .unwrap()
        .add_input(s("b.o"))
        .unwrap()
        .set_output(&mut out)
        .unwrap()
        .build()
        .unwrap();
    assert_eq!(two.get_input_filename().unwrap_err(), Error::MultipleInputs);
}

#[test]
fn input_without_a_file_name_is_refused() {
    let cc = s("gcc");
    let mut out = s("app");
    let gcc = Compiler::builder(&cc, CompilerCommand::COMPILE)
        .add_input(s("src/.."))
        .unwrap()
        .set_output(&mut out)
        .unwrap()
        .build()
        .unwrap();
    assert_eq!(gcc.get_input_filename().unwrap_err(), Error::InvalidInputName);
}

#[test]
fn compile_arguments_are_flags_input_and_output() {
    let cc = s("gcc");
    let first = s("inc");
    let second = s("lib/include");
    let mut dirs = vec![&first, &second];
    let mut out = s("build/a");
    let gcc = Compiler::builder(&cc, CompilerCommand::COMPILE)
        .add_input(s("a.c"))
        .unwrap()
        .add_includes(&mut dirs)
        .set_output(&mut out)
        .unwrap()
        .build()
        .unwrap();
    assert_eq!(gcc.get_include_flags(), vec![s("-Iinc"), s("-Ilib/include")]);
    assert_eq!(
        gcc.arguments(),
        vec![s("-Iinc"), s("-Ilib/include"), s("a.c"), s("-c"), s("-o"), s("build/a.o")]
    );
    let run = gcc.invocation().unwrap();
    assert_eq!(run.program, "gcc");
    assert_eq!(run.args, gcc.arguments());
    assert_eq!(run.output_dir, "build");
}

#[test]
fn compile_without_header_directories_has_no_flag_argument() {
    let cc = s("gcc");
    let mut out = s("build/src/a.c");
    let gcc = Compiler::builder(&cc, CompilerCommand::COMPILE)
        .add_input(s("src/a.c"))
        .unwrap()
        .set_output(&mut out)
        .unwrap()
        .build()
        .unwrap();
    assert_eq!(gcc.get_include_flags(), Vec::<String>::new());
    assert_eq!(
        gcc.arguments(),
        vec![s("src/a.c"), s("-c"), s("-o"), s("build/src/a.c.o")]
    );
    assert_eq!(gcc.invocation().unwrap().output_dir, "build/src");
}

#[test]
fn header_directory_with_a_space_is_one_argument() {
    let cc = s("gcc");
    let dir = s("my headers");
    let mut dirs = vec![&dir];
    let mut out = s("build/a");
    let gcc = Compiler::builder(&cc, CompilerCommand::COMPILE)
        .add_input(s("my source.c"))
        .unwrap()
        .add_includes(&mut dirs)
        .set_output(&mut out)
        .unwrap()
        .build()
        .unwrap();
    assert_eq!(
        gcc.arguments(),
        vec![s("-Imy headers"), s("my source.c"), s("-c"), s("-o"), s("build/a.o")]
    );
}

#[test]
fn link_arguments_are_inputs_and_output() {
    let cc = s("clang");
    let mut objects = vec![s("build/a.c.o"), s("build/b.c.o")];
    let mut out = s("build/app");
    let gcc = Compiler::builder(&cc, CompilerCommand::LINK)
        .add_inputs(&mut objects)
        .unwrap()
        .set_output(&mut out)
        .unwrap()
        .build()
        .unwrap();
    let run = gcc.invocation().unwrap();
    assert_eq!(run.program, "clang");
    assert_eq!(run.args, vec![s("build/a.c.o"), s("build/b.c.o"), s("-o"), s("build/app")]);
    assert_eq!(run.output_dir, "build");
}

#[test]
fn output_in_the_current_directory_has_an_empty_parent() {
    let cc = s("gcc");
    let mut out = s("app");
    let gcc = Compiler::builder(&cc, CompilerCommand::LINK)
        .add_input(s("a.o"))
        .unwrap()
        .set_output(&mut out)
        .unwrap()
        .build()
        .unwrap();
    assert_eq!(gcc.invocation().unwrap().output_dir, "");
}

#[test]
fn link_input_with_a_space_is_one_argument() {
    let cc = s("gcc");
    let mut objects = vec![s("build/my file.c.o"), s("build/b.c.o")];
    let mut out = s("build/my app");
    let gcc = Compiler::builder(&cc, CompilerCommand::LINK)
        .add_inputs(&mut objects)
        .unwrap()
        .set_output(&mut out)
        .unwrap()
        .build()
        .unwrap();
    assert_eq!(
        gcc.arguments(),
        vec![s("build/my file.c.o"), s("build/b.c.o"), s("-o"), s("build/my app")]
    );
}

#[test]
fn compile_that_holds_an_input_refuses_a_batch() {
    let cc = s("gcc");
    let mut more = vec![s("b.c")];
    let refused = Compiler::builder(&cc, CompilerCommand::COMPILE)
        .add_input(s("a.c"))
        .unwrap()
        .add_inputs(&mut more);
    assert_eq!(refused.unwrap_err(), Error::TooManyInputs);
    assert_eq!(more, vec![s("b.c")]);
}

#[test]
fn compile_takes_a_batch_of_one_and_then_no_more() {
    let cc = s("gcc");
    let mut batch = vec![s("a.c")];
    let one = Compiler::builder(&cc, CompilerCommand::COMPILE)
        .add_inputs(&mut batch)
        .unwrap();
    assert!(batch.is_empty());
    let mut none: Vec<String> = Vec::new();
    let still_one = one.add_inputs(&mut none).unwrap();
    let refused = still_one.add_input(s("b.c"));
    assert_eq!(refused.unwrap_err(), Error::TooManyInputs);
}

#[test]
fn object_name_and_flag_are_spelled_out() {
    assert_eq!(object_file_name("a"), "a.o");
    assert_eq!(object_file_name("main.c"), "main.c.o");
    assert_eq!(include_flag("inc"), "-Iinc");
    assert_eq!(include_flag(""), "-I");
}

#[test]
fn errors_say_what_went_wrong() {
    assert_eq!(Error::TooManyInputs.detail(), "Compile only a single file at a time.");
    assert_eq!(Error::MultipleInputs.detail(), "Multiple input files present.");
    assert_eq!(Error::NoInputs.detail(), "No input files present.");
    assert_eq!(Error::InvalidInputName.detail(), "Output file is unparseable.");
    assert_eq!(Error::InvalidOutputName.detail(), "Output does not have a valid filename.");
    assert_eq!(Error::OutputNotSet.detail(), "Output file not set.");
    assert_eq!(Error::NoOutputParent.detail(), "Can't get parent.");
    assert_eq!(Error::Custom(s("disk full")).detail(), "disk full");
    assert_eq!(Error::DependencyScanFailure(s("a.c:1: error")).detail(), "a.c:1: error");
    assert_eq!(
        Error::UnparseableDependencies(s("nonsense")).message(),
        "Custom error: Unparseable dependencies: \"nonsense\""
    );
    assert_eq!(Error::OutputNotSet.message(), "Custom error: Output file not set.");
    assert_eq!(Error::Custom(s("x")).duplicate(), Error::Custom(s("x")));
}
