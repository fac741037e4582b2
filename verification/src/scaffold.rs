//! The two files that are written around the bundler: the bootstrap module it
//! starts from, and the page that loads what it produced.
//!
//! Both are fixed texts with one hole, the name of the target. Writing one
//! replaces whatever the file held before.

use vstd::prelude::*;
use crate::error::{Error, ErrorModel};
use crate::path::{entry_of, is_file_stem, is_separator, FsPath, PathPartModel};
use crate::process::{OsError, OsErrorModel};
use crate::progress::{Progress, ProgressModel};

verus! {

/// The name of the bootstrap module.
pub const JS_INDEX_NAME: &'static str = "index.js";

/// The bootstrap module up to the import.
pub const JS_HEAD: &'static str = "\n        void async function () {\n            const js = await ";

/// How the import of the compiled module begins. The module's name follows
/// without an extension: the importer finds the file.
pub const JS_IMPORT_OPEN: &'static str = "import(\"./";

/// How the import of the compiled module ends.
pub const JS_IMPORT_CLOSE: &'static str = "\")";

/// What stands between the import and the call of the entry function.
pub const JS_BETWEEN: &'static str = ";\n            ";

/// The call of the function every compiled module exports as its entry.
pub const JS_ENTRY_CALL: &'static str = "js.web_main()";

/// The end of the bootstrap module.
pub const JS_TAIL: &'static str = "\n        }();\n        ";

/// The host page up to the script tag.
pub const HTML_HEAD: &'static str = "\n        <html>\n            <head>\n                <meta content=\"text/html;charset=utf-8\" http-equiv=\"Content-Type\"/>\n            </head>\n            <body>\n                ";

/// How the tag that loads the bundled script begins.
pub const HTML_SCRIPT_OPEN: &'static str = "<script src='./";

/// How the tag that loads the bundled script ends.
pub const HTML_SCRIPT_CLOSE: &'static str = ".js'>";

/// The end of the host page.
pub const HTML_TAIL: &'static str = "</script>\n            </body>\n        </html>";

/// The extension of the bundled script.
pub const JS_EXTENSION: &'static str = ".js";

/// The extension of the host page.
pub const HTML_EXTENSION: &'static str = ".html";

/// A file to write: where, and its whole content.
#[derive(Debug, PartialEq, Eq)]
pub struct Artifact {
    pub path: FsPath,
    pub content: String,
}

/// Mathematical value of an [`Artifact`].
pub struct ArtifactModel {
    pub path: Seq<PathPartModel>,
    pub content: Seq<char>,
}

impl DeepView for Artifact {
    type V = ArtifactModel;

    open spec fn deep_view(&self) -> ArtifactModel {
        ArtifactModel { path: self.path.deep_view(), content: self.content@ }
    }
}

/// What came of writing a file.
#[derive(Debug, PartialEq, Eq)]
pub enum WriteOutcome {
    Written,
    Failed(OsError),
}

/// Mathematical value of a [`WriteOutcome`].
pub enum WriteOutcomeModel {
    Written,
    Failed(OsErrorModel),
}

impl DeepView for WriteOutcome {
    type V = WriteOutcomeModel;

    open spec fn deep_view(&self) -> WriteOutcomeModel {
        match self {
            WriteOutcome::Written => WriteOutcomeModel::Written,
            WriteOutcome::Failed(cause) => WriteOutcomeModel::Failed(cause.deep_view()),
        }
    }
}

/// The expression that imports the compiled module `target_name`.
pub open spec fn js_import(target_name: Seq<char>) -> Seq<char> {
    JS_IMPORT_OPEN@ + target_name + JS_IMPORT_CLOSE@
}

/// The text of the bootstrap module: a function that is called on the spot,
/// imports the compiled module and, once that is there, calls its entry.
pub open spec fn js_index_text(target_name: Seq<char>) -> Seq<char> {
    JS_HEAD@ + js_import(target_name) + JS_BETWEEN@ + JS_ENTRY_CALL@ + JS_TAIL@
}

/// The tag that loads the bundled script of `target_name`, which lies beside
/// the page.
pub open spec fn html_script_tag(target_name: Seq<char>) -> Seq<char> {
    HTML_SCRIPT_OPEN@ + target_name + HTML_SCRIPT_CLOSE@
}

/// The text of the host page.
pub open spec fn html_index_text(target_name: Seq<char>) -> Seq<char> {
    HTML_HEAD@ + html_script_tag(target_name) + HTML_TAIL@
}

/// The name of the bundled script of `target_name`.
pub open spec fn bundle_name(target_name: Seq<char>) -> Seq<char> {
    target_name + JS_EXTENSION@
}

/// The name of the host page of `target_name`.
pub open spec fn html_index_name(target_name: Seq<char>) -> Seq<char> {
    target_name + HTML_EXTENSION@
}

/// The bootstrap module for `target_name`, as a file of the directory `dir`.
pub open spec fn js_index_artifact(target_name: Seq<char>, dir: Seq<PathPartModel>) -> ArtifactModel {
    ArtifactModel { path: entry_of(dir, JS_INDEX_NAME@), content: js_index_text(target_name) }
}

/// The host page for `target_name`, as a file of the directory `dir`.
pub open spec fn html_index_artifact(target_name: Seq<char>, dir: Seq<PathPartModel>) -> ArtifactModel {
    ArtifactModel {
        path: entry_of(dir, html_index_name(target_name)),
        content: html_index_text(target_name),
    }
}

/// How writing the bootstrap module goes on.
pub open spec fn js_index_progress(
    target_name: Seq<char>,
    dir: Seq<PathPartModel>,
    written: Option<WriteOutcomeModel>,
) -> ProgressModel<ArtifactModel, ()> {
    match written {
        None => ProgressModel::Need(js_index_artifact(target_name, dir)),
        Some(WriteOutcomeModel::Written) => ProgressModel::Done(Ok(())),
        Some(WriteOutcomeModel::Failed(cause)) => ProgressModel::Done(
            Err(ErrorModel::WriteJsIndexError(cause)),
        ),
    }
}

/// How writing the host page goes on.
pub open spec fn html_index_progress(
    target_name: Seq<char>,
    dir: Seq<PathPartModel>,
    written: Option<WriteOutcomeModel>,
) -> ProgressModel<ArtifactModel, ()> {
    match written {
        None => ProgressModel::Need(html_index_artifact(target_name, dir)),
        Some(WriteOutcomeModel::Written) => ProgressModel::Done(Ok(())),
        Some(WriteOutcomeModel::Failed(cause)) => ProgressModel::Done(
            Err(ErrorModel::WriteHtmlIndexError(cause)),
        ),
    }
}

/// Whether `part` stands in `text` at the offset `at`.
pub open spec fn occurs_at(text: Seq<char>, part: Seq<char>, at: int) -> bool {
    0 <= at && at + part.len() <= text.len() && text.subrange(at, at + part.len()) == part
}

/// Whether `part` stands somewhere in `text`.
pub open spec fn contains_text(text: Seq<char>, part: Seq<char>) -> bool {
    exists|at: int| occurs_at(text, part, at)
}

/// What a set of files holds after `file` has been written: the file has
/// exactly the new content, whatever it held before, and no other file has
/// changed.
pub open spec fn after_write(
    files: Map<Seq<PathPartModel>, Seq<char>>,
    file: ArtifactModel,
) -> Map<Seq<PathPartModel>, Seq<char>> {
    files.insert(file.path, file.content)
}

/// The bootstrap module of every target imports the compiled module of that
/// name and calls its entry function.
pub proof fn lemma_js_index_imports_target(target_name: Seq<char>)
    ensures
        contains_text(js_index_text(target_name), js_import(target_name)),
        contains_text(js_index_text(target_name), JS_ENTRY_CALL@),
{
    let text = js_index_text(target_name);
    let import = js_import(target_name);
    let at = JS_HEAD@.len() as int;
    assert(text.subrange(at, at + import.len()) =~= import);
    assert(occurs_at(text, import, at));
    let call_at = at + import.len() + JS_BETWEEN@.len();
    assert(text.subrange(call_at, call_at + JS_ENTRY_CALL@.len()) =~= JS_ENTRY_CALL@);
    assert(occurs_at(text, JS_ENTRY_CALL@, call_at));
}

/// The host page of every target loads the bundled script of that name.
pub proof fn lemma_html_index_loads_bundle(target_name: Seq<char>)
    ensures
        contains_text(html_index_text(target_name), html_script_tag(target_name)),
{
    let text = html_index_text(target_name);
    let tag = html_script_tag(target_name);
    let at = HTML_HEAD@.len() as int;
    assert(text.subrange(at, at + tag.len()) =~= tag);
    assert(occurs_at(text, tag, at));
}

/// Where the full stops and the slashes of the host page's fixed parts stand.
proof fn lemma_html_punctuation()
    ensures
        forall|i: int| 0 <= i < HTML_HEAD@.len() ==> HTML_HEAD@[i] != '.',
        forall|i: int| 0 <= i < HTML_TAIL@.len() ==> HTML_TAIL@[i] != '.',
        HTML_SCRIPT_OPEN@.len() == 15,
        HTML_SCRIPT_OPEN@[14] == '/',
        forall|i: int| 0 <= i < 15 ==> (HTML_SCRIPT_OPEN@[i] == '.' <==> i == 13),
        HTML_SCRIPT_CLOSE@.len() == 5,
        forall|i: int| 0 <= i < 5 ==> HTML_SCRIPT_CLOSE@[i] != '/',
        forall|i: int| 0 <= i < 5 ==> (HTML_SCRIPT_CLOSE@[i] == '.' <==> i == 0),
{
    reveal_strlit(
        "\n        <html>\n            <head>\n                <meta content=\"text/html;charset=utf-8\" http-equiv=\"Content-Type\"/>\n            </head>\n            <body>\n                ",
    );
    reveal_strlit("<script src='./");
    reveal_strlit(".js'>");
    reveal_strlit("</script>\n            </body>\n        </html>");
}

/// The character of the host page at the offset `at`, by the part it lies in.
proof fn lemma_html_index_char(target_name: Seq<char>, at: int)
    ensures
        ({
            let text = html_index_text(target_name);
            let head = HTML_HEAD@.len();
            let name = head + HTML_SCRIPT_OPEN@.len();
            let close = name + target_name.len();
            let tail = close + HTML_SCRIPT_CLOSE@.len();
            &&& text.len() == tail + HTML_TAIL@.len()
            &&& 0 <= at < head ==> text[at] == HTML_HEAD@[at]
            &&& head <= at < name ==> text[at] == HTML_SCRIPT_OPEN@[at - head]
            &&& name <= at < close ==> text[at] == target_name[at - name]
            &&& close <= at < tail ==> text[at] == HTML_SCRIPT_CLOSE@[at - close]
            &&& tail <= at < text.len() ==> text[at] == HTML_TAIL@[at - tail]
        }),
{
}

/// The host page of every target whose name holds no separator refers to one
/// script and no more: the text that opens such a reference stands at one
/// place only, and there stands the tag that loads the bundled script.
pub proof fn lemma_html_index_loads_bundle_once(target_name: Seq<char>)
    requires
        is_file_stem(target_name),
    ensures
        forall|at: int|
            occurs_at(html_index_text(target_name), HTML_SCRIPT_OPEN@, at) <==> at
                == HTML_HEAD@.len(),
        forall|at: int|
            occurs_at(html_index_text(target_name), html_script_tag(target_name), at) <==> at
                == HTML_HEAD@.len(),
{
    let text = html_index_text(target_name);
    let tag = html_script_tag(target_name);
    let head = HTML_HEAD@.len() as int;
    let open = HTML_SCRIPT_OPEN@.len() as int;
    assert(text.subrange(head, head + open) =~= HTML_SCRIPT_OPEN@);
    assert(text.subrange(head, head + tag.len()) =~= tag);
    assert forall|at: int| occurs_at(text, HTML_SCRIPT_OPEN@, at) implies at == head by {
        lemma_html_punctuation();
        let found = text.subrange(at, at + open);
        assert(found[13] == HTML_SCRIPT_OPEN@[13] && found[14] == HTML_SCRIPT_OPEN@[14]);
        let dot = at + 13;
        assert(text[dot] == '.' && text[dot + 1] == '/');
        lemma_html_index_char(target_name, dot);
        lemma_html_index_char(target_name, dot + 1);
        let name = head + open;
        if name <= dot + 1 < name + target_name.len() {
            assert(!is_separator(target_name[dot + 1 - name]));
        }
    }
    assert forall|at: int| occurs_at(text, tag, at) implies at == head by {
        assert(text.subrange(at, at + tag.len()).subrange(0, open) =~= text.subrange(
            at,
            at + open,
        ));
        assert(tag.subrange(0, open) =~= HTML_SCRIPT_OPEN@);
        assert(occurs_at(text, HTML_SCRIPT_OPEN@, at));
    }
}

/// The names of the files made for a target whose name holds no separator
/// hold none either: each file lies in its directory and not below it.
pub proof fn lemma_artifact_names_are_file_names(target_name: Seq<char>)
    requires
        is_file_stem(target_name),
    ensures
        is_file_stem(JS_INDEX_NAME@),
        is_file_stem(bundle_name(target_name)),
        is_file_stem(html_index_name(target_name)),
{
    reveal_strlit("index.js");
    reveal_strlit(".js");
    reveal_strlit(".html");
}

/// Writing the same file a second time changes nothing: the file holds the
/// content once, and the other files are as they were after the first time.
pub proof fn lemma_writing_again_changes_nothing(
    files: Map<Seq<PathPartModel>, Seq<char>>,
    file: ArtifactModel,
)
    ensures
        after_write(files, file)[file.path] == file.content,
        after_write(after_write(files, file), file) == after_write(files, file),
{
    assert(after_write(after_write(files, file), file) =~= after_write(files, file));
}

/// The name of the bundled script of `target_name`.
pub fn bundle_file_name(target_name: &str) -> (name: String)
    ensures
        name@ == bundle_name(target_name@),
{
    String::from_str(target_name).concat(JS_EXTENSION)
}

/// Writes the bootstrap module for `target_name` into `dir`: says what to
/// write, and reads what came of writing it.
pub fn create_js_index(target_name: &str, dir: &FsPath, written: &Option<WriteOutcome>) -> (next: Progress<
    Artifact,
    (),
>)
    ensures
        next.deep_view() == js_index_progress(target_name@, dir.deep_view(), written.deep_view()),
{
    match written {
        None => {
            let mut content = String::from_str(JS_HEAD);
            content.append(JS_IMPORT_OPEN);
            content.append(target_name);
            content.append(JS_IMPORT_CLOSE);
            content.append(JS_BETWEEN);
            content.append(JS_ENTRY_CALL);
            content.append(JS_TAIL);
            assert(content@ =~= js_index_text(target_name@));
            Progress::Need(Artifact { path: dir.join(JS_INDEX_NAME), content })
        },
        Some(WriteOutcome::Written) => Progress::Done(Ok(())),
        Some(WriteOutcome::Failed(cause)) => Progress::Done(
            Err(Error::WriteJsIndexError(cause.duplicate())),
        ),
    }
}

/// Writes the host page for `target_name` into `dir`: says what to write, and
/// reads what came of writing it.
pub fn create_html_index(target_name: &str, dir: &FsPath, written: &Option<WriteOutcome>) -> (next:
    Progress<Artifact, ()>)
    ensures
        next.deep_view() == html_index_progress(target_name@, dir.deep_view(), written.deep_view()),
{
    match written {
        None => {
            let mut content = String::from_str(HTML_HEAD);
            content.append(HTML_SCRIPT_OPEN);
            content.append(target_name);
            content.append(HTML_SCRIPT_CLOSE);
            content.append(HTML_TAIL);
            assert(content@ =~= html_index_text(target_name@));
            let name = String::from_str(target_name).concat(HTML_EXTENSION);
            Progress::Need(Artifact { path: dir.join(name.as_str()), content })
        },
        Some(WriteOutcome::Written) => Progress::Done(Ok(())),
        Some(WriteOutcome::Failed(cause)) => Progress::Done(
            Err(Error::WriteHtmlIndexError(cause.duplicate())),
        ),
    }
}

} // verus!
