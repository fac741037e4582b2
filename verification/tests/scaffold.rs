use std::collections::HashMap;
use wasm_build_support::error::Error;
use wasm_build_support::path::{FsPath, PathPart};
use wasm_build_support::process::{OsError, OsErrorKind};
use wasm_build_support::progress::Progress;
use wasm_build_support::scaffold::{
    bundle_file_name, create_html_index, create_js_index, Artifact, WriteOutcome,
};

fn names(parts: &[&str]) -> FsPath {
    FsPath { parts: parts.iter().map(|name| PathPart::Name(name.to_string())).collect() }
}

fn artifact(next: Progress<Artifact, ()>) -> Artifact {
    match next {
        Progress::Need(file) => file,
        other => panic!("nothing to write: {:?}", other),
    }
}

fn key(path: &FsPath) -> String {
    format!("{:?}", path)
}

fn disk_full() -> OsError {
    OsError { kind: OsErrorKind::Other, message: "no space left on device".to_string() }
}

const FOO_JS_INDEX: &str = r#"
        void async function () {
            const js = await import("./foo");
            js.web_main()
        }();
        "#;

const FOO_HTML_INDEX: &str = r#"
        <html>
            <head>
                <meta content="text/html;charset=utf-8" http-equiv="Content-Type"/>
            </head>
            <body>
                <script src='./foo.js'></script>
            </body>
        </html>"#;

#[test]
fn js_index_is_written_as_index_js() {
    let file = artifact(create_js_index("foo", &names(&["out", "build"]), &None));
    assert_eq!(file.path, names(&["out", "build", "index.js"]));
}

#[test]
fn js_index_imports_the_module_and_calls_its_entry() {
    let file = artifact(create_js_index("foo", &names(&["out", "build"]), &None));
    assert!(file.content.contains("import(\"./foo\")"));
    assert!(file.content.contains("js.web_main()"));
    let import = file.content.find("import(\"./foo\")").unwrap();
    let call = file.content.find("js.web_main()").unwrap();
    assert!(import < call);
}

#[test]
fn js_index_is_the_fixed_text_around_the_name() {
    let file = artifact(create_js_index("foo", &names(&["build"]), &None));
    assert_eq!(file.content, FOO_JS_INDEX);
    let other = artifact(create_js_index("my-game", &names(&["build"]), &None));
    assert_eq!(other.content, FOO_JS_INDEX.replace("foo", "my-game"));
}

#[test]
fn html_index_is_named_after_the_target() {
    let file = artifact(create_html_index("foo", &names(&["out"]), &None));
    assert_eq!(file.path, names(&["out", "foo.html"]));
}

#[test]
fn html_index_loads_the_bundle_exactly_once() {
    let file = artifact(create_html_index("foo", &names(&["out"]), &None));
    assert_eq!(file.content.matches("<script src='./foo.js'>").count(), 1);
    assert_eq!(file.content.matches("<script").count(), 1);
    assert!(file.content.contains("<meta content=\"text/html;charset=utf-8\""));
}

#[test]
fn html_index_refers_to_one_script_for_any_name_without_separator() {
    for name in ["a.b", "..", ".js'>", "<script src='.", "x'><script src='", ""] {
        let file = artifact(create_html_index(name, &names(&["out"]), &None));
        assert_eq!(file.content.matches("<script src='./").count(), 1, "{:?}", name);
        let tag = format!("<script src='./{}.js'>", name);
        assert_eq!(file.content.matches(tag.as_str()).count(), 1, "{:?}", name);
        assert_eq!(file.content.find(tag.as_str()), file.content.find("<script src='./"));
    }
}

#[test]
fn html_index_is_the_fixed_text_around_the_name() {
    let file = artifact(create_html_index("foo", &names(&["out"]), &None));
    assert_eq!(file.content, FOO_HTML_INDEX);
    let other = artifact(create_html_index("my-game", &names(&["out"]), &None));
    assert_eq!(other.content, FOO_HTML_INDEX.replace("foo", "my-game"));
}

#[test]
fn written_files_end_the_step() {
    let dir = names(&["out"]);
    assert_eq!(create_js_index("foo", &dir, &Some(WriteOutcome::Written)), Progress::Done(Ok(())));
    assert_eq!(
        create_html_index("foo", &dir, &Some(WriteOutcome::Written)),
        Progress::Done(Ok(()))
    );
}

#[test]
fn write_failures_are_tagged_by_artifact() {
    let dir = names(&["out"]);
    assert_eq!(
        create_js_index("foo", &dir, &Some(WriteOutcome::Failed(disk_full()))),
        Progress::Done(Err(Error::WriteJsIndexError(disk_full())))
    );
    assert_eq!(
        create_html_index("foo", &dir, &Some(WriteOutcome::Failed(disk_full()))),
        Progress::Done(Err(Error::WriteHtmlIndexError(disk_full())))
    );
}

#[test]
fn bundle_is_named_after_the_target() {
    assert_eq!(bundle_file_name("foo"), "foo.js");
    assert_eq!(bundle_file_name(""), ".js");
}

#[test]
fn scaffolding_twice_overwrites_with_the_same_bytes() {
    let dir = names(&["out", "build"]);
    let mut files: HashMap<String, Vec<u8>> = HashMap::new();
    files.insert(key(&names(&["out", "build", "index.js"])), b"stale content".to_vec());
    for _ in 0..2 {
        let js = artifact(create_js_index("foo", &dir, &None));
        files.insert(key(&js.path), js.content.into_bytes());
        let html = artifact(create_html_index("foo", &dir, &None));
        files.insert(key(&html.path), html.content.into_bytes());
    }
    assert_eq!(files.len(), 2);
    assert_eq!(files[&key(&names(&["out", "build", "index.js"]))], FOO_JS_INDEX.as_bytes());
    assert_eq!(files[&key(&names(&["out", "build", "foo.html"]))], FOO_HTML_INDEX.as_bytes());
    assert_eq!(
        artifact(create_js_index("foo", &dir, &None)),
        artifact(create_js_index("foo", &dir, &None))
    );
    assert_eq!(
        artifact(create_html_index("foo", &dir, &None)),
        artifact(create_html_index("foo", &dir, &None))
    );
}
