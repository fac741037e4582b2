//! File-system paths as lists of components, with the few operations the
//! pipelines need: the parent, the containing directory, and an entry of a
//! directory.
//!
//! A path is held component by component so that the rules do not depend on
//! the separator of the host platform.

use vstd::prelude::*;

verus! {

/// One component of a path.
#[derive(Debug, PartialEq, Eq)]
pub enum PathPart {
    /// A volume or share that anchors the path, such as a drive letter.
    Prefix(String),
    /// The root directory.
    Root,
    /// The current directory, `.`.
    Current,
    /// The parent directory, `..`.
    Parent,
    /// An ordinary file or directory name.
    Name(String),
}

/// Mathematical value of a [`PathPart`].
pub enum PathPartModel {
    Prefix(Seq<char>),
    Root,
    Current,
    Parent,
    Name(Seq<char>),
}

impl DeepView for PathPart {
    type V = PathPartModel;

    open spec fn deep_view(&self) -> PathPartModel {
        match self {
            PathPart::Prefix(text) => PathPartModel::Prefix(text@),
            PathPart::Root => PathPartModel::Root,
            PathPart::Current => PathPartModel::Current,
            PathPart::Parent => PathPartModel::Parent,
            PathPart::Name(text) => PathPartModel::Name(text@),
        }
    }
}

impl PathPart {
    /// A second component with the same value.
    pub fn duplicate(&self) -> (copy: PathPart)
        ensures
            copy.deep_view() == self.deep_view(),
    {
        match self {
            PathPart::Prefix(text) => PathPart::Prefix(text.clone()),
            PathPart::Root => PathPart::Root,
            PathPart::Current => PathPart::Current,
            PathPart::Parent => PathPart::Parent,
            PathPart::Name(text) => PathPart::Name(text.clone()),
        }
    }
}

/// A path: its components from the outermost to the innermost.
#[derive(Debug, PartialEq, Eq)]
pub struct FsPath {
    pub parts: Vec<PathPart>,
}

impl DeepView for FsPath {
    type V = Seq<PathPartModel>;

    open spec fn deep_view(&self) -> Seq<PathPartModel> {
        self.parts.deep_view()
    }
}

/// The path without its last component. There is none for the empty path and
/// for a path that ends in a root or a prefix.
pub open spec fn parent_of(path: Seq<PathPartModel>) -> Option<Seq<PathPartModel>> {
    if path.len() == 0 {
        None
    } else {
        match path.last() {
            PathPartModel::Prefix(_) | PathPartModel::Root => None,
            _ => Some(path.drop_last()),
        }
    }
}

/// Whether the last component is an ordinary name.
pub open spec fn has_file_name(path: Seq<PathPartModel>) -> bool {
    path.len() > 0 && path.last() is Name
}

/// The directory that holds the file a path names: the path without its file
/// name, or the path itself where it ends in no file name.
pub open spec fn directory_of(path: Seq<PathPartModel>) -> Seq<PathPartModel> {
    if has_file_name(path) {
        path.drop_last()
    } else {
        path
    }
}

/// The entry called `name` of the directory `dir`.
pub open spec fn entry_of(dir: Seq<PathPartModel>, name: Seq<char>) -> Seq<PathPartModel> {
    dir.push(PathPartModel::Name(name))
}

/// An entry of a directory lies in that directory: the directory is its
/// parent, and the directory that holds it.
pub proof fn lemma_entry_lies_in_its_directory(dir: Seq<PathPartModel>, name: Seq<char>)
    ensures
        has_file_name(entry_of(dir, name)),
        parent_of(entry_of(dir, name)) == Some(dir),
        directory_of(entry_of(dir, name)) == dir,
{
    assert(entry_of(dir, name).drop_last() =~= dir);
}

/// Whether a character separates the components of a path on some platform.
pub open spec fn is_separator(c: char) -> bool {
    c == '/' || c == '\\'
}

/// Whether a text can be the stem of a file name: it holds no separator.
pub open spec fn is_file_stem(name: Seq<char>) -> bool {
    forall|i: int| 0 <= i < name.len() ==> !is_separator(#[trigger] name[i])
}

/// Tells whether `name` can be the stem of a file name.
pub fn check_file_stem(name: &str) -> (ok: bool)
    ensures
        ok == is_file_stem(name@),
{
    let length: usize = name.unicode_len();
    let mut index: usize = 0;
    while index < length
        invariant
            index <= length,
            length == name@.len(),
            forall|i: int| 0 <= i < index ==> !is_separator(#[trigger] name@[i]),
        decreases length - index,
    {
        let c: char = name.get_char(index);
        if c == '/' || c == '\\' {
            return false;
        }
        index += 1;
    }
    true
}

impl FsPath {
    /// The first `count` components.
    fn leading(&self, count: usize) -> (head: FsPath)
        requires
            count <= self.parts.len(),
        ensures
            head.deep_view() == self.deep_view().take(count as int),
    {
        let mut parts: Vec<PathPart> = Vec::new();
        let mut index: usize = 0;
        while index < count
            invariant
                index <= count <= self.parts.len(),
                parts.len() == index,
                forall|i: int| 0 <= i < index ==> parts[i].deep_view() == self.parts[i].deep_view(),
            decreases count - index,
        {
            parts.push(self.parts[index].duplicate());
            index += 1;
        }
        let head = FsPath { parts };
        assert(head.deep_view() =~= self.deep_view().take(count as int));
        head
    }

    /// A second path with the same components.
    pub fn duplicate(&self) -> (copy: FsPath)
        ensures
            copy.deep_view() == self.deep_view(),
    {
        let copy = self.leading(self.parts.len());
        assert(self.deep_view().take(self.parts.len() as int) =~= self.deep_view());
        copy
    }

    /// The path without its last component, if it has a parent.
    pub fn parent(&self) -> (result: Option<FsPath>)
        ensures
            result.deep_view() == parent_of(self.deep_view()),
    {
        let count: usize = self.parts.len();
        if count == 0 {
            return None;
        }
        match &self.parts[count - 1] {
            PathPart::Prefix(_) | PathPart::Root => None,
            _ => {
                let head = self.leading(count - 1);
                assert(self.deep_view().take(count - 1) =~= self.deep_view().drop_last());
                Some(head)
            },
        }
    }

    /// The directory that holds the file this path names.
    pub fn directory(&self) -> (dir: FsPath)
        ensures
            dir.deep_view() == directory_of(self.deep_view()),
    {
        let count: usize = self.parts.len();
        if count == 0 {
            return self.duplicate();
        }
        match &self.parts[count - 1] {
            PathPart::Name(_) => {
                let head = self.leading(count - 1);
                assert(self.deep_view().take(count - 1) =~= self.deep_view().drop_last());
                head
            },
            _ => self.duplicate(),
        }
    }

    /// The entry called `name` of this directory.
    pub fn join(&self, name: &str) -> (child: FsPath)
        ensures
            child.deep_view() == entry_of(self.deep_view(), name@),
    {
        let mut child = self.duplicate();
        child.parts.push(PathPart::Name(String::from_str(name)));
        assert(child.deep_view() =~= entry_of(self.deep_view(), name@));
        child
    }
}

} // verus!
