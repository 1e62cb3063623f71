use vstd::prelude::*;

use crate::text::decimal;
use crate::document::{
    file_document, path_may_match, same_path, untitled_document, Document, DocumentView,
};

verus! {

/// What a workspace is: its open documents in tab order, the active tab, and the counters
/// that number new untitled documents and identify new documents.
#[verifier::ext_equal]
pub struct WorkspaceView {
    pub documents: Seq<DocumentView>,
    pub active_tab: int,
    pub next_untitled_id: usize,
    pub next_document_id: usize,
}

impl WorkspaceView {
    /// At least one document is open, the active tab is one of them, every document has an
    /// identity below the next one to hand out, and no two documents share an identity.
    pub open spec fn wf(self) -> bool {
        &&& self.documents.len() >= 1
        &&& 0 <= self.active_tab < self.documents.len()
        &&& forall|i: int| 0 <= i < self.documents.len() ==> #[trigger] self.documents[i].id < self.next_document_id
        &&& forall|i: int, j: int|
            0 <= i < self.documents.len() && 0 <= j < self.documents.len() && i != j
                ==> #[trigger] self.documents[i].id != #[trigger] self.documents[j].id
    }

    /// The counters can hand out one more untitled document.
    pub open spec fn can_create_untitled(self) -> bool {
        self.next_untitled_id < usize::MAX && self.next_document_id < usize::MAX
    }

    /// The counters can hand out one more document identity.
    pub open spec fn can_open(self) -> bool {
        self.next_document_id < usize::MAX
    }

    /// The document in the active tab.
    pub open spec fn active_document(self) -> DocumentView {
        self.documents[self.active_tab]
    }

    /// Whether some open document has unsaved edits.
    pub open spec fn has_modified(self) -> bool {
        exists|i: int| 0 <= i < self.documents.len() && #[trigger] self.documents[i].modified
    }

    /// Whether the document at `index` exists and has unsaved edits.
    pub open spec fn modified_at(self, index: int) -> bool {
        0 <= index < self.documents.len() && self.documents[index].modified
    }
}

/// The workspace at start: "Untitled 1", with identity 1, alone and active.
pub open spec fn initial_workspace() -> WorkspaceView {
    WorkspaceView {
        documents: seq![untitled_document(1, 1)],
        active_tab: 0,
        next_untitled_id: 2,
        next_document_id: 2,
    }
}

/// The workspace with a fresh untitled document appended in a new, active tab.
pub open spec fn spec_new_tab(v: WorkspaceView) -> WorkspaceView {
    let docs = v.documents.push(untitled_document(v.next_untitled_id as nat, v.next_document_id));
    WorkspaceView {
        documents: docs,
        active_tab: docs.len() - 1,
        next_untitled_id: (v.next_untitled_id + 1) as usize,
        next_document_id: (v.next_document_id + 1) as usize,
    }
}

/// The workspace after closing the tab at `index`: nothing changes for an index past the last
/// tab; closing the only tab leaves one fresh untitled document; otherwise the active tab keeps
/// its document when another tab closes, and moves to the last tab when it was the last tab.
pub open spec fn spec_close_tab(v: WorkspaceView, index: int) -> WorkspaceView {
    if index < 0 || index >= v.documents.len() {
        v
    } else {
        let docs = v.documents.remove(index);
        if docs.len() == 0 {
            WorkspaceView {
                documents: seq![untitled_document(v.next_untitled_id as nat, v.next_document_id)],
                active_tab: 0,
                next_untitled_id: (v.next_untitled_id + 1) as usize,
                next_document_id: (v.next_document_id + 1) as usize,
            }
        } else {
            let active = if index < v.active_tab {
                v.active_tab - 1
            } else if v.active_tab >= docs.len() {
                docs.len() - 1
            } else {
                v.active_tab
            };
            WorkspaceView { documents: docs, active_tab: active, ..v }
        }
    }
}

/// The workspace with the file at `path`, holding `content`, appended in a new, active tab.
pub open spec fn spec_open_document(v: WorkspaceView, path: Seq<char>, content: Seq<char>) -> WorkspaceView {
    let docs = v.documents.push(file_document(path, content, v.next_document_id));
    WorkspaceView {
        documents: docs,
        active_tab: docs.len() - 1,
        next_document_id: (v.next_document_id + 1) as usize,
        ..v
    }
}

/// The workspace with the tab at `index` made active, or unchanged when there is no such tab.
pub open spec fn spec_set_active_tab(v: WorkspaceView, index: int) -> WorkspaceView {
    if 0 <= index < v.documents.len() {
        WorkspaceView { active_tab: index, ..v }
    } else {
        v
    }
}

/// Every operation keeps the workspace invariant: a document stays open, the active tab is one
/// of them, and no two documents share an identity.
pub proof fn law_operations_keep_invariant(v: WorkspaceView, index: int, path: Seq<char>, content: Seq<char>)
    requires
        v.wf(),
    ensures
        v.can_create_untitled() ==> spec_new_tab(v).wf(),
        (0 <= index < v.documents.len() && v.documents.len() == 1 ==> v.can_create_untitled())
            ==> spec_close_tab(v, index).wf(),
        v.can_open() ==> spec_open_document(v, path, content).wf(),
        spec_set_active_tab(v, index).wf(),
{
    if v.can_create_untitled() {
        let n = spec_new_tab(v);
        assert forall|i: int| 0 <= i < n.documents.len() implies #[trigger] n.documents[i].id < n.next_document_id by {
            if i < v.documents.len() {
                assert(n.documents[i] == v.documents[i]);
            }
        }
        assert forall|i: int, j: int|
            0 <= i < n.documents.len() && 0 <= j < n.documents.len() && i != j
            implies #[trigger] n.documents[i].id != #[trigger] n.documents[j].id by {
            if i < v.documents.len() {
                assert(n.documents[i] == v.documents[i]);
            }
            if j < v.documents.len() {
                assert(n.documents[j] == v.documents[j]);
            }
        }
    }
    if v.can_open() {
        let o = spec_open_document(v, path, content);
        assert forall|i: int| 0 <= i < o.documents.len() implies #[trigger] o.documents[i].id < o.next_document_id by {
            if i < v.documents.len() {
                assert(o.documents[i] == v.documents[i]);
            }
        }
        assert forall|i: int, j: int|
            0 <= i < o.documents.len() && 0 <= j < o.documents.len() && i != j
            implies #[trigger] o.documents[i].id != #[trigger] o.documents[j].id by {
            if i < v.documents.len() {
                assert(o.documents[i] == v.documents[i]);
            }
            if j < v.documents.len() {
                assert(o.documents[j] == v.documents[j]);
            }
        }
    }
    if 0 <= index < v.documents.len() && v.documents.len() > 1 {
        let docs = v.documents.remove(index);
        assert forall|i: int, j: int|
            0 <= i < docs.len() && 0 <= j < docs.len() && i != j
            implies #[trigger] docs[i].id != #[trigger] docs[j].id by {
            let oi = if i < index { i } else { i + 1 };
            let oj = if j < index { j } else { j + 1 };
            assert(docs[i] == v.documents[oi]);
            assert(docs[j] == v.documents[oj]);
        }
        assert forall|i: int| 0 <= i < docs.len() implies #[trigger] docs[i].id < v.next_document_id by {
            let oi = if i < index { i } else { i + 1 };
            assert(docs[i] == v.documents[oi]);
        }
    }
}

/// Closing a tab other than the active one keeps the active document active.
pub proof fn law_closing_another_tab_keeps_active_document(v: WorkspaceView, index: int)
    requires
        v.wf(),
        0 <= index < v.documents.len(),
        index != v.active_tab,
    ensures
        spec_close_tab(v, index).active_document() == v.active_document(),
{
    let docs = v.documents.remove(index);
    if index < v.active_tab {
        assert(docs[v.active_tab - 1] == v.documents[v.active_tab]);
    } else {
        assert(docs[v.active_tab] == v.documents[v.active_tab]);
    }
}

/// Closing the active tab makes its right neighbour active, or its left neighbour when it was
/// the last tab.
pub proof fn law_closing_active_tab_moves_to_neighbour(v: WorkspaceView)
    requires
        v.wf(),
        v.documents.len() >= 2,
    ensures
        spec_close_tab(v, v.active_tab).active_document() == if v.active_tab + 1 < v.documents.len() {
            v.documents[v.active_tab + 1]
        } else {
            v.documents[v.active_tab - 1]
        },
{
    let docs = v.documents.remove(v.active_tab);
    if v.active_tab + 1 < v.documents.len() {
        assert(docs[v.active_tab] == v.documents[v.active_tab + 1]);
    } else {
        assert(docs[v.active_tab - 1] == v.documents[v.active_tab - 1]);
    }
}

/// Closing the tab that `new_tab` just opened gives back the documents from before.
pub proof fn law_closing_new_tab_restores_documents(v: WorkspaceView)
    requires
        v.wf(),
        v.can_create_untitled(),
    ensures
        spec_close_tab(spec_new_tab(v), v.documents.len() as int).documents == v.documents,
{
    let n = spec_new_tab(v);
    assert(n.documents.remove(v.documents.len() as int) =~= v.documents);
}

/// Closing the only tab leaves one fresh untitled document, active.
pub proof fn law_closing_only_tab_leaves_fresh_document(v: WorkspaceView)
    requires
        v.wf(),
        v.documents.len() == 1,
    ensures
        spec_close_tab(v, 0).documents == seq![untitled_document(v.next_untitled_id as nat, v.next_document_id)],
        spec_close_tab(v, 0).active_tab == 0,
        v.can_create_untitled() ==> spec_close_tab(v, 0).next_untitled_id == v.next_untitled_id + 1
            && spec_close_tab(v, 0).next_document_id == v.next_document_id + 1,
{
    assert(v.documents.remove(0).len() == 0);
}

/// Closing the tab at `index`, when another tab stays open, removes exactly that document: the
/// documents before it keep their positions, the ones after it move one position left, and the
/// counters do not move.
pub proof fn law_close_tab_removes_exactly_that_tab(v: WorkspaceView, index: int)
    requires
        v.wf(),
        0 <= index < v.documents.len(),
        v.documents.len() > 1,
    ensures
        spec_close_tab(v, index).documents.len() == v.documents.len() - 1,
        forall|j: int| 0 <= j < index ==> #[trigger] spec_close_tab(v, index).documents[j] == v.documents[j],
        forall|j: int| index <= j < v.documents.len() - 1
            ==> #[trigger] spec_close_tab(v, index).documents[j] == v.documents[j + 1],
        forall|j: int| 0 <= j < v.documents.len() && j != index
            ==> spec_close_tab(v, index).documents.contains(#[trigger] v.documents[j]),
        !spec_close_tab(v, index).documents.contains(v.documents[index]),
        spec_close_tab(v, index).next_untitled_id == v.next_untitled_id,
        spec_close_tab(v, index).next_document_id == v.next_document_id,
{
    let w = spec_close_tab(v, index);
    assert forall|j: int| 0 <= j < v.documents.len() && j != index
        implies w.documents.contains(#[trigger] v.documents[j]) by {
        if j < index {
            assert(w.documents[j] == v.documents[j]);
        } else {
            assert(w.documents[j - 1] == v.documents[j]);
        }
    }
    if w.documents.contains(v.documents[index]) {
        let k = choose|k: int| 0 <= k < w.documents.len() && w.documents[k] == v.documents[index];
        let o = if k < index { k } else { k + 1 };
        assert(w.documents[k] == v.documents[o]);
        assert(v.documents[o].id == v.documents[index].id);
        assert(false);
    }
}

/// Each new tab moves both counters on by one and keeps every earlier document in place; its
/// document is titled "Untitled " and the number the untitled counter held.
pub proof fn law_new_tab_moves_counters_on(v: WorkspaceView)
    requires
        v.wf(),
        v.can_create_untitled(),
    ensures
        spec_new_tab(v).next_untitled_id == v.next_untitled_id + 1,
        spec_new_tab(v).next_document_id == v.next_document_id + 1,
        forall|j: int| 0 <= j < v.documents.len() ==> #[trigger] spec_new_tab(v).documents[j] == v.documents[j],
        spec_new_tab(v).active_document().title
            == seq!['U', 'n', 't', 'i', 't', 'l', 'e', 'd', ' '] + decimal(v.next_untitled_id as nat),
        spec_new_tab(v).active_document().id == v.next_document_id,
{
}

/// Two new tabs in a row are numbered in turn: the first with the untitled counter's number
/// `n`, the second with `n + 1`, and they get different identities.
pub proof fn law_successive_new_tabs_are_numbered_in_turn(v: WorkspaceView)
    requires
        v.wf(),
        v.next_untitled_id + 2 < usize::MAX,
        v.next_document_id + 2 < usize::MAX,
    ensures
        ({
            let w = spec_new_tab(spec_new_tab(v));
            let n = v.documents.len() as int;
            &&& w.documents.len() == n + 2
            &&& w.documents[n].title
                == seq!['U', 'n', 't', 'i', 't', 'l', 'e', 'd', ' '] + decimal(v.next_untitled_id as nat)
            &&& w.documents[n + 1].title
                == seq!['U', 'n', 't', 'i', 't', 'l', 'e', 'd', ' '] + decimal(v.next_untitled_id as nat + 1)
            &&& w.documents[n].id != w.documents[n + 1].id
            &&& w.next_untitled_id == v.next_untitled_id + 2
        }),
{
    law_new_tab_moves_counters_on(v);
    law_operations_keep_invariant(v, 0, Seq::empty(), Seq::empty());
    law_new_tab_moves_counters_on(spec_new_tab(v));
    let w1 = spec_new_tab(v);
    assert(spec_new_tab(w1).documents[v.documents.len() as int] == w1.documents[v.documents.len() as int]);
}

/// A new tab holds a fresh untitled document, active, whose identity no other document has.
pub proof fn law_new_tab_is_fresh_and_active(v: WorkspaceView)
    requires
        v.wf(),
        v.can_create_untitled(),
    ensures
        spec_new_tab(v).active_document() == untitled_document(v.next_untitled_id as nat, v.next_document_id),
        spec_new_tab(v).documents.len() == v.documents.len() + 1,
        forall|i: int| 0 <= i < v.documents.len() ==> #[trigger] v.documents[i].id != spec_new_tab(v).active_document().id,
{
}

/// An opened file becomes the active document, with its path and text and no unsaved edits,
/// under an identity no other document has.
pub proof fn law_opened_document_is_active(v: WorkspaceView, path: Seq<char>, content: Seq<char>)
    requires
        v.wf(),
        v.can_open(),
    ensures
        spec_open_document(v, path, content).active_document() == file_document(path, content, v.next_document_id),
        spec_open_document(v, path, content).active_document().path == Some(path),
        forall|i: int| 0 <= i < v.documents.len() ==> #[trigger] v.documents[i].id != v.next_document_id,
{
}

/// The open documents of a notepad, shown as tabs, one of them active.
pub struct Workspace {
    documents: Vec<Document>,
    active_tab: usize,
    next_untitled_id: usize,
    next_document_id: usize,
}

impl View for Workspace {
    type V = WorkspaceView;

    closed spec fn view(&self) -> WorkspaceView {
        WorkspaceView {
            documents: self.documents@.map_values(|d: Document| d@),
            active_tab: self.active_tab as int,
            next_untitled_id: self.next_untitled_id,
            next_document_id: self.next_document_id,
        }
    }
}

impl Workspace {
    /// Whether the workspace keeps its invariant.
    pub open spec fn wf(&self) -> bool {
        self@.wf()
    }

    /// A workspace with one document, "Untitled 1", active.
    pub fn new() -> (w: Self)
        ensures
            w.wf(),
            w@ == initial_workspace(),
    {
        let w = Self {
            documents: vec![Document::new_untitled(1, 1)],
            active_tab: 0,
            next_untitled_id: 2,
            next_document_id: 2,
        };
        assert(w@.documents =~= seq![untitled_document(1, 1)]);
        w
    }

    /// The next untitled document; the counters move on.
    pub fn create_untitled_document(&mut self) -> (d: Document)
        requires
            old(self)@.can_create_untitled(),
        ensures
            d@ == untitled_document(old(self)@.next_untitled_id as nat, old(self)@.next_document_id),
            final(self)@ == (WorkspaceView {
                next_untitled_id: (old(self)@.next_untitled_id + 1) as usize,
                next_document_id: (old(self)@.next_document_id + 1) as usize,
                ..old(self)@
            }),
    {
        let document = Document::new_untitled(self.next_untitled_id, self.next_document_id);
        self.next_untitled_id += 1;
        self.next_document_id += 1;
        document
    }

    /// Opens a fresh untitled document in a new tab and makes it active.
    pub fn new_tab(&mut self)
        requires
            old(self).wf(),
            old(self)@.can_create_untitled(),
        ensures
            final(self).wf(),
            final(self)@ == spec_new_tab(old(self)@),
    {
        let document = self.create_untitled_document();
        self.documents.push(document);
        self.active_tab = self.documents.len() - 1;
        assert(self@.documents =~= spec_new_tab(old(self)@).documents);
    }

    /// Closes the tab at `index`; an index past the last tab changes nothing.
    pub fn close_tab(&mut self, index: usize)
        requires
            old(self).wf(),
            index < old(self)@.documents.len() && old(self)@.documents.len() == 1
                ==> old(self)@.can_create_untitled(),
        ensures
            final(self).wf(),
            final(self)@ == spec_close_tab(old(self)@, index as int),
    {
        if index >= self.documents.len() {
            return;
        }
        let ghost old_view = self@;
        self.documents.remove(index);
        assert(self@.documents =~= old_view.documents.remove(index as int));
        if self.documents.len() == 0 {
            let document = self.create_untitled_document();
            self.documents.push(document);
            self.active_tab = 0;
            assert(self@.documents =~= spec_close_tab(old_view, index as int).documents);
            return;
        }
        if index < self.active_tab {
            self.active_tab -= 1;
        } else if self.active_tab >= self.documents.len() {
            self.active_tab = self.documents.len() - 1;
        }
        proof {
            law_operations_keep_invariant(old_view, index as int, Seq::empty(), Seq::empty());
        }
    }

    /// Opens the file at `path`, holding `content`, in a new tab and makes it active.
    pub fn open_document(&mut self, path: String, content: String)
        requires
            old(self).wf(),
            old(self)@.can_open(),
        ensures
            final(self).wf(),
            final(self)@ == spec_open_document(old(self)@, path@, content@),
    {
        let document = Document::from_file(path, content, self.next_document_id);
        self.next_document_id += 1;
        self.documents.push(document);
        self.active_tab = self.documents.len() - 1;
        assert(self@.documents =~= spec_open_document(old(self)@, path@, content@).documents);
    }

    /// Whether the counters can still number and identify another untitled document.
    pub fn has_room_for_new_document(&self) -> (r: bool)
        ensures
            r == self@.can_create_untitled(),
    {
        self.next_untitled_id < usize::MAX && self.next_document_id < usize::MAX
    }

    /// The position of the active tab.
    pub fn active_tab(&self) -> (r: usize)
        ensures
            r == self@.active_tab,
    {
        self.active_tab
    }

    /// Makes the tab at `index` active; an index past the last tab changes nothing.
    pub fn set_active_tab(&mut self, index: usize)
        requires
            old(self).wf(),
        ensures
            final(self).wf(),
            final(self)@ == spec_set_active_tab(old(self)@, index as int),
    {
        if index < self.documents.len() {
            self.active_tab = index;
        }
    }

    /// The document in the active tab.
    pub fn active_document(&self) -> (r: &Document)
        requires
            self.wf(),
        ensures
            r@ == self@.active_document(),
    {
        &self.documents[self.active_tab]
    }

    /// The document in the active tab, for changing it.
    pub fn active_document_mut(&mut self) -> (r: &mut Document)
        requires
            old(self).wf(),
        ensures
            r@ == old(self)@.active_document(),
            final(self)@ == (WorkspaceView {
                documents: old(self)@.documents.update(old(self)@.active_tab, final(r)@),
                ..old(self)@
            }),
    {
        &mut self.documents[self.active_tab]
    }

    /// The document in the tab at `index`, if there is one.
    pub fn document(&self, index: usize) -> (r: Option<&Document>)
        ensures
            r matches Some(d) ==> index < self@.documents.len() && d@ == self@.documents[index as int],
            r is None ==> index >= self@.documents.len(),
    {
        if index < self.documents.len() {
            Some(&self.documents[index])
        } else {
            None
        }
    }

    /// The document in the tab at `index`, if there is one, for changing it.
    pub fn document_mut(&mut self, index: usize) -> (r: Option<&mut Document>)
        ensures
            index >= old(self)@.documents.len() ==> r is None && final(self)@ == old(self)@,
            index < old(self)@.documents.len() ==> r is Some
                && r.unwrap()@ == old(self)@.documents[index as int]
                && final(self)@ == (WorkspaceView {
                    documents: old(self)@.documents.update(index as int, final(r.unwrap())@),
                    ..old(self)@
                }),
    {
        if index < self.documents.len() {
            Some(&mut self.documents[index])
        } else {
            None
        }
    }

    /// The number of open documents.
    pub fn len(&self) -> (r: usize)
        ensures
            r == self@.documents.len(),
    {
        self.documents.len()
    }

    /// The first tab whose document has the file at `path`. Paths are compared as
    /// `std::path::Path` compares them: equal texts always match, and two paths in canonical
    /// form match exactly when their texts are equal.
    pub fn find_document_by_path(&self, path: &str) -> (r: Option<usize>)
        ensures
            r matches Some(i) ==> i < self@.documents.len() && (self@.documents[i as int].path matches Some(p)
                && path_may_match(p, path@)),
            r matches Some(i) ==> forall|j: int| 0 <= j < i ==> self@.documents[j].path != Some(path@),
            r is None ==> forall|j: int| 0 <= j < self@.documents.len() ==> self@.documents[j].path != Some(path@),
    {
        let n = self.documents.len();
        let mut i: usize = 0;
        while i < n
            invariant
                i <= n == self@.documents.len(),
                forall|j: int| 0 <= j < i ==> self@.documents[j].path != Some(path@),
            decreases n - i,
        {
            let document = &self.documents[i];
            match document.path() {
                Some(p) => {
                    if same_path(p, path) {
                        return Some(i);
                    }
                },
                None => {},
            }
            i = i + 1;
        }
        None
    }

    /// Whether some open document has unsaved edits.
    pub fn has_modified_documents(&self) -> (r: bool)
        ensures
            r == self@.has_modified(),
    {
        let n = self.documents.len();
        let mut i: usize = 0;
        while i < n
            invariant
                i <= n == self@.documents.len(),
                forall|j: int| 0 <= j < i ==> !self@.documents[j].modified,
            decreases n - i,
        {
            if self.documents[i].is_modified() {
                assert(self@.documents[i as int].modified);
                return true;
            }
            i = i + 1;
        }
        false
    }
}

} // verus!
