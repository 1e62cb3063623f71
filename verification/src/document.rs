use vstd::prelude::*;

use crate::text::{decimal, decimal_string};

verus! {

/// What a document is: its identity, title, text, file path and whether it has unsaved edits.
#[verifier::ext_equal]
pub struct DocumentView {
    pub id: usize,
    pub title: Seq<char>,
    pub content: Seq<char>,
    pub path: Option<Seq<char>>,
    pub modified: bool,
}

/// One open note: its text and, once saved or opened, the path of its file.
#[derive(Debug)]
pub struct Document {
    id: usize,
    title: String,
    content: String,
    path: Option<String>,
    modified: bool,
}

impl View for Document {
    type V = DocumentView;

    closed spec fn view(&self) -> DocumentView {
        DocumentView {
            id: self.id,
            title: self.title@,
            content: self.content@,
            path: match self.path {
                Some(p) => Some(p@),
                None => None,
            },
            modified: self.modified,
        }
    }
}

/// Title of the document that `Document::new` creates.
pub open spec fn default_title() -> Seq<char> {
    seq!['U', 'n', 't', 'i', 't', 'l', 't', 'e', 'd', ' ', 'N', 'o', 't', 'e']
}

/// Title of the untitled document numbered `number`: "Untitled " and the number.
pub open spec fn untitled_title(number: nat) -> Seq<char> {
    seq!['U', 'n', 't', 'i', 't', 'l', 'e', 'd', ' '] + decimal(number)
}

/// A fresh, empty, unsaved document.
pub open spec fn untitled_document(number: nat, id: usize) -> DocumentView {
    DocumentView {
        id,
        title: untitled_title(number),
        content: Seq::empty(),
        path: None,
        modified: false,
    }
}

/// A document read from the file at `path`.
pub open spec fn file_document(path: Seq<char>, content: Seq<char>, id: usize) -> DocumentView {
    DocumentView { id, title: Seq::empty(), content, path: Some(path), modified: false }
}

/// True when `s` is a single plain name: not empty, not "." or "..", and free of the
/// characters that any platform treats as separators or drive markers ('/', '\\', ':').
pub open spec fn simple_name(s: Seq<char>) -> bool {
    &&& s.len() > 0
    &&& s != seq!['.']
    &&& s != seq!['.', '.']
    &&& forall|i: int| 0 <= i < s.len() ==> s[i] != '/' && s[i] != '\\' && s[i] != ':'
}

/// Position where the last component of `s` starts: just after its last '/', or 0 when it
/// has none.
pub open spec fn name_start(s: Seq<char>) -> int
    decreases s.len(),
{
    if s.len() == 0 {
        0
    } else if s.last() == '/' {
        s.len() as int
    } else {
        name_start(s.drop_last())
    }
}

/// The part of `s` after its last '/'.
pub open spec fn last_component(s: Seq<char>) -> Seq<char> {
    s.subrange(name_start(s), s.len() as int)
}

/// True when `s` is plain names joined by single '/', optionally after one leading '/': no
/// empty, "." or ".." component, and no '\\' or ':' anywhere. Such a text is read the same
/// way on every platform: a root (when it starts with '/') and then its names, in order.
pub open spec fn is_canonical_path(s: Seq<char>) -> bool
    decreases s.len(),
{
    let k = name_start(s);
    &&& 0 <= k <= s.len()
    &&& simple_name(s.subrange(k, s.len() as int))
    &&& (k == 0 || (k == 1 && s[0] == '/') || (k >= 2 && is_canonical_path(s.take(k - 1))))
}

/// `std::path::Path::file_name` of the path written as `path`, as text. How other texts split
/// into components depends on the platform's separators and prefixes, so the contract states
/// what holds on every platform: a path in canonical form (plain names joined by '/') has its
/// last name as its file name. What it returns for other paths is left unsaid.
#[verifier::external_body]
fn path_file_name(path: &str) -> (r: Option<&str>)
    ensures
        is_canonical_path(path@) ==> (r is Some && r.unwrap()@ == last_component(path@)),
{
    match std::path::Path::new(path).file_name() {
        Some(name) => name.to_str(),
        None => None,
    }
}

/// `PartialEq` of `std::path::Path` on the paths written as `a` and `b`. Paths are compared
/// by their components; how other texts split into components depends on the platform, so the
/// contract states what holds on every platform: equal texts are equal paths, and two paths in
/// canonical form are equal exactly when their texts are equal. What it returns for other paths
/// is left unsaid.
#[verifier::external_body]
pub(crate) fn same_path(a: &str, b: &str) -> (r: bool)
    ensures
        a@ == b@ ==> r,
        is_canonical_path(a@) && is_canonical_path(b@) ==> (r <==> a@ == b@),
{
    std::path::Path::new(a) == std::path::Path::new(b)
}

/// Whether `p`, the path of a document, matches the path `query` asked for: always when the
/// texts are equal; for two paths in canonical form, only then.
pub open spec fn path_may_match(p: Seq<char>, query: Seq<char>) -> bool {
    is_canonical_path(p) && is_canonical_path(query) ==> p == query
}

/// What is known of the name shown for `d`: its title when it has no path, and the last name
/// of its path when that path is in canonical form.
pub open spec fn is_display_name(d: DocumentView, name: Seq<char>) -> bool {
    &&& d.path is None ==> name == d.title
    &&& d.path matches Some(p) ==> (is_canonical_path(p) ==> name == last_component(p))
}

/// The name shown for a document: the file name of its path when there is one, else its title.
pub fn display_name_from<'a>(file_name: Option<&'a str>, title: &'a str) -> (r: &'a str)
    ensures
        r@ == (match file_name {
            Some(n) => n@,
            None => title@,
        }),
{
    match file_name {
        Some(n) => n,
        None => title,
    }
}

impl Default for Document {
    fn default() -> (d: Self)
        ensures
            d@ == (DocumentView {
                id: 1,
                title: default_title(),
                content: Seq::empty(),
                path: None,
                modified: false,
            }),
    {
        proof {
            reveal_strlit("Untitlted Note");
        }
        let title = String::from_str("Untitlted Note");
        assert(title@ =~= default_title());
        Document { id: 1, title, content: String::new(), path: None, modified: false }
    }
}

impl Document {
    /// The default document: id 1, the default title, no text, no path.
    pub fn new() -> (d: Self)
        ensures
            d@ == (DocumentView {
                id: 1,
                title: default_title(),
                content: Seq::empty(),
                path: None,
                modified: false,
            }),
    {
        Self::default()
    }

    /// The identity of the document.
    pub fn id(&self) -> (r: usize)
        ensures
            r == self@.id,
    {
        self.id
    }

    /// An empty, unsaved document titled "Untitled {number}".
    pub fn new_untitled(number: usize, id: usize) -> (d: Self)
        ensures
            d@ == untitled_document(number as nat, id),
    {
        proof {
            reveal_strlit("Untitled ");
        }
        let title = String::from_str("Untitled ").concat(decimal_string(number).as_str());
        assert(title@ =~= untitled_title(number as nat));
        Document { id, title, content: String::new(), path: None, modified: false }
    }

    /// The name shown for the document: the file name of its path, or its title when it has
    /// no path or the path has no file name.
    pub fn display_name(&self) -> (r: &str)
        ensures
            is_display_name(self@, r@),
    {
        let file_name = match &self.path {
            Some(p) => path_file_name(p.as_str()),
            None => None,
        };
        display_name_from(file_name, self.title.as_str())
    }

    /// The text of the document, for editing in place.
    pub fn content_mut(&mut self) -> (r: &mut String)
        ensures
            r@ == old(self)@.content,
            final(self)@ == (DocumentView { content: final(r)@, ..old(self)@ }),
    {
        &mut self.content
    }

    /// The text of the document.
    pub fn content(&self) -> (r: &str)
        ensures
            r@ == self@.content,
    {
        self.content.as_str()
    }

    /// Whether the document has edits that are not saved.
    pub fn is_modified(&self) -> (r: bool)
        ensures
            r == self@.modified,
    {
        self.modified
    }

    /// The path of the document's file, if it has one.
    pub fn path(&self) -> (r: Option<&str>)
        ensures
            r matches Some(p) ==> self@.path == Some(p@),
            r is None ==> self@.path is None,
    {
        match &self.path {
            Some(p) => Some(p.as_str()),
            None => None,
        }
    }

    /// Records that the document matches its file.
    pub fn mark_as_saved(&mut self)
        ensures
            final(self)@ == (DocumentView { modified: false, ..old(self)@ }),
    {
        self.modified = false;
    }

    /// Gives the document the file path `path`.
    pub fn set_path(&mut self, path: String)
        ensures
            final(self)@ == (DocumentView { path: Some(path@), ..old(self)@ }),
    {
        self.path = Some(path);
    }

    /// Records that the document has unsaved edits.
    pub fn mark_as_modified(&mut self)
        ensures
            final(self)@ == (DocumentView { modified: true, ..old(self)@ }),
    {
        self.modified = true;
    }

    /// A document holding `content`, read from the file at `path`.
    pub fn from_file(path: String, content: String, id: usize) -> (d: Self)
        ensures
            d@ == file_document(path@, content@, id),
    {
        Document { id, title: String::new(), content, path: Some(path), modified: false }
    }
}

} // verus!
