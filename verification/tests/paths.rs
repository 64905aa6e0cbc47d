use epub2md::errors::PipelineError;
use epub2md::paths::resolve_paths;
use epub2md::paths::InputSpec;

fn input(epub: &str, out: Option<&str>) -> InputSpec {
    InputSpec {
        epub_path: epub.to_string(),
        output_path: out.map(|s| s.to_string()),
    }
}

#[test]
fn derives_output_beside_cwd_when_none_given() {
    let r = resolve_paths(&input("book.epub", None), "/work").unwrap();
    assert_eq!(r.intermediate, "/work/temp_epub.html");
    assert_eq!(r.output, "/work/book.md");
}

#[test]
fn keeps_caller_supplied_output_verbatim() {
    let r = resolve_paths(&input("book.epub", Some("custom/out.md")), "/work").unwrap();
    assert_eq!(r.output, "custom/out.md");
    assert_eq!(r.intermediate, "/work/temp_epub.html");
}

#[test]
fn derives_from_file_name_of_nested_path() {
    let r = resolve_paths(&input("a/b/c.epub", None), "/w").unwrap();
    assert_eq!(r.output, "/w/c.md");
}

#[test]
fn trims_repeated_epub_suffix() {
    let r = resolve_paths(&input("a.epub.epub", None), "/w").unwrap();
    assert_eq!(r.output, "/w/a.md");
}

#[test]
fn does_not_double_the_separator() {
    let r = resolve_paths(&input("book.epub", None), "/work/").unwrap();
    assert_eq!(r.intermediate, "/work/temp_epub.html");
    assert_eq!(r.output, "/work/book.md");
}

#[test]
fn rejects_wrong_extension() {
    let e = resolve_paths(&input("notes.txt", None), "/w").unwrap_err();
    match e {
        PipelineError::InvalidInput { msg } => {
            assert_eq!(msg, "the input file must have the .epub extension");
        }
        _ => panic!("expected InvalidInput"),
    }
}

#[test]
fn rejects_uppercase_extension() {
    let e = resolve_paths(&input("BOOK.EPUB", None), "/w").unwrap_err();
    assert!(matches!(e, PipelineError::InvalidInput { .. }));
}

#[test]
fn rejects_path_without_file_name() {
    let e = resolve_paths(&input("dir/", None), "/w").unwrap_err();
    match e {
        PipelineError::InvalidInput { msg } => {
            assert_eq!(msg, "the input path has no file name");
        }
        _ => panic!("expected InvalidInput"),
    }
}

#[test]
fn rejects_bare_suffix_as_hidden_file() {
    let e = resolve_paths(&input(".epub", None), "/w").unwrap_err();
    assert!(matches!(e, PipelineError::InvalidInput { .. }));
}

#[test]
fn rejects_empty_path() {
    let e = resolve_paths(&input("", None), "/w").unwrap_err();
    assert!(matches!(e, PipelineError::InvalidInput { .. }));
}
