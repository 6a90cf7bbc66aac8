use cbuild::deps::{
    find_colon, get_header_deps, read_scan, scan_arguments, trim_ascii_end, ProcessOutput,
};
use cbuild::error::Error;
use cbuild::path::{extension, name_extension};
use cbuild::text::{chars_of, copy_texts, is_whitespace, join_with, split_whitespace};

fn s(text: &str) -> String {
    String::from(text)
}

#[test]
fn listing_names_the_headers_after_the_source() {
    let headers = get_header_deps(s("foo.o: foo.c bar.h baz.h")).unwrap();
    assert_eq!(headers, vec![s("bar.h"), s("baz.h")]);
}

#[test]
fn empty_listing_names_no_header() {
    assert_eq!(get_header_deps(s("")).unwrap(), Vec::<String>::new());
}

#[test]
fn listing_without_colon_is_refused() {
    assert_eq!(
        get_header_deps(s("foo.o foo.c bar.h")).unwrap_err(),
        Error::UnparseableDependencies(s("foo.o foo.c bar.h"))
    );
    assert_eq!(get_header_deps(s(" ")).unwrap_err(), Error::UnparseableDependencies(s(" ")));
}

#[test]
fn listing_of_a_source_without_headers_is_empty() {
    assert_eq!(get_header_deps(s("foo.o: foo.c")).unwrap(), Vec::<String>::new());
    assert_eq!(get_header_deps(s("foo.o:")).unwrap(), Vec::<String>::new());
    assert_eq!(get_header_deps(s("foo.o:   \n")).unwrap(), Vec::<String>::new());
}

#[test]
fn listing_is_split_at_its_first_colon_only() {
    let headers = get_header_deps(s("foo.o: foo.c c:/inc/bar.h")).unwrap();
    assert_eq!(headers, vec![s("c:/inc/bar.h")]);
}

#[test]
fn listing_may_use_any_whitespace() {
    let headers = get_header_deps(s("foo.o:\tfoo.c\n  bar.h\u{a0}baz.h\r\n")).unwrap();
    assert_eq!(headers, vec![s("bar.h"), s("baz.h")]);
}

#[test]
fn first_colon_is_found() {
    let chars: Vec<char> = "ab:cd:e".chars().collect();
    assert_eq!(find_colon(&chars), Some(2));
    let none: Vec<char> = "abc".chars().collect();
    assert_eq!(find_colon(&none), None);
}

#[test]
fn whitespace_at_the_end_is_trimmed() {
    assert_eq!(trim_ascii_end(&b"a: b \t\r\n\x0c".to_vec()), b"a: b".to_vec());
    assert_eq!(trim_ascii_end(&b"  a".to_vec()), b"  a".to_vec());
    assert_eq!(trim_ascii_end(&b" \n ".to_vec()), Vec::<u8>::new());
    assert_eq!(trim_ascii_end(&b"a\x0b".to_vec()), b"a\x0b".to_vec());
    assert_eq!(trim_ascii_end(&Vec::new()), Vec::<u8>::new());
}

#[test]
fn scan_asks_for_a_listing_of_the_source() {
    assert_eq!(
        scan_arguments(vec![s("-Iinc"), s("-Ilib/include")], "src/a.c"),
        vec![s("-Iinc"), s("-Ilib/include"), s("src/a.c"), s("-MM")]
    );
    assert_eq!(scan_arguments(Vec::new(), "a.c"), vec![s("a.c"), s("-MM")]);
}

#[test]
fn successful_scan_is_read_as_a_listing() {
    let out = ProcessOutput {
        success: true,
        stdout: b"a.o: src/a.c inc/a.h inc/b.h\n".to_vec(),
        stderr: Vec::new(),
    };
    assert_eq!(read_scan(out).unwrap(), vec![s("inc/a.h"), s("inc/b.h")]);
}

#[test]
fn scan_that_wrote_only_a_line_end_names_no_header() {
    let out = ProcessOutput { success: true, stdout: b"\n".to_vec(), stderr: Vec::new() };
    assert_eq!(read_scan(out).unwrap(), Vec::<String>::new());
}

#[test]
fn failed_scan_carries_standard_error() {
    let out = ProcessOutput {
        success: false,
        stdout: b"a.o: a.c".to_vec(),
        stderr: b"a.c:1:10: fatal error: x.h: No such file".to_vec(),
    };
    assert_eq!(
        read_scan(out).unwrap_err(),
        Error::DependencyScanFailure(s("a.c:1:10: fatal error: x.h: No such file"))
    );
}

#[test]
fn scan_output_must_be_utf8() {
    let out = ProcessOutput { success: true, stdout: vec![0x61, 0xff, 0x3a], stderr: Vec::new() };
    assert_eq!(read_scan(out).unwrap_err(), Error::InvalidUtf8);
    let out = ProcessOutput { success: false, stdout: Vec::new(), stderr: vec![0xc3] };
    assert_eq!(read_scan(out).unwrap_err(), Error::InvalidUtf8);
}

#[test]
fn scan_output_without_colon_is_refused() {
    let out = ProcessOutput { success: true, stdout: b"nonsense\n".to_vec(), stderr: Vec::new() };
    assert_eq!(read_scan(out).unwrap_err(), Error::UnparseableDependencies(s("nonsense")));
}

#[test]
fn words_are_split_on_whitespace() {
    assert_eq!(split_whitespace("  a.o   b.o\tc.o\n"), vec![s("a.o"), s("b.o"), s("c.o")]);
    assert_eq!(split_whitespace(""), Vec::<String>::new());
    assert_eq!(split_whitespace(" \n\t"), Vec::<String>::new());
    assert_eq!(split_whitespace("héllo wörld"), vec![s("héllo"), s("wörld")]);
}

#[test]
fn parts_are_joined_with_the_separator() {
    assert_eq!(join_with(&vec![s("a"), s("b"), s("c")], " "), "a b c");
    assert_eq!(join_with(&vec![s("a")], ", "), "a");
    assert_eq!(join_with(&Vec::new(), " "), "");
    assert_eq!(join_with(&vec![s(""), s("")], "-"), "-");
    assert_eq!(copy_texts(&vec![s("a"), s("b")]), vec![s("a"), s("b")]);
}

#[test]
fn whitespace_is_what_the_standard_library_calls_so() {
    for code in 0..=0x10ffffu32 {
        if let Some(c) = char::from_u32(code) {
            assert_eq!(is_whitespace(c), c.is_whitespace(), "U+{:04X}", code);
        }
    }
}

#[test]
fn words_are_what_the_standard_library_splits() {
    for text in ["", " ", "a", " a  b\tc\n", "\u{3000}x\u{2003}y\u{85}", "a\u{200b}b c", "é è"] {
        let expected: Vec<String> = text.split_whitespace().map(String::from).collect();
        assert_eq!(split_whitespace(text), expected, "{:?}", text);
    }
}

#[test]
fn characters_are_handed_out_in_order() {
    assert_eq!(chars_of("aé越"), vec!['a', 'é', '越']);
    assert_eq!(chars_of(""), Vec::<char>::new());
}

#[test]
fn extension_follows_the_last_dot_of_the_file_name() {
    assert_eq!(name_extension("a.c"), Some(s("c")));
    assert_eq!(name_extension("a.tar.gz"), Some(s("gz")));
    assert_eq!(name_extension("a."), Some(s("")));
    assert_eq!(name_extension(".profile"), None);
    assert_eq!(name_extension(".profile.c"), Some(s("c")));
    assert_eq!(name_extension("Makefile"), None);
    assert_eq!(name_extension(""), None);
    assert_eq!(extension("src/a.c"), Some(s("c")));
    assert_eq!(extension("src.d/a"), None);
    assert_eq!(extension("src/.."), None);
}

#[test]
fn extension_is_what_the_standard_library_answers() {
    let samples = [
        "a.c", "dir/a.c", "dir.d/a", "a.", ".a", "..", ".", "", "a..c", ".a.c", "dir/", "dir/.c",
        "/", "a/b.c/", "a/b.tar.gz", "a/..c", "a/c..", "é.ç", "x.y.z/..", "./a.c",
    ];
    for path in samples {
        let expected = std::path::Path::new(path)
            .extension()
            .map(|e| e.to_string_lossy().into_owned());
        assert_eq!(extension(path), expected, "{:?}", path);
    }
}
