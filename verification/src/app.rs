use vstd::prelude::*;

use crate::document::{is_display_name, path_may_match, DocumentView};
use crate::text::{
    char_slice, clamp_index, cursor_line_column, line_column, occurs_at, read_char_range,
    remove_char_range, saturate, without_chars,
};
use crate::search::{
    find_next_match, find_previous_match, lemma_first_occurrence, lemma_last_occurrence,
    next_match, previous_match, TextRange,
};
use crate::workspace::{
    initial_workspace, spec_close_tab, spec_new_tab, spec_open_document, spec_set_active_tab, Workspace,
    WorkspaceView,
};

verus! {

/// An action that waits for the user to answer the unsaved-changes dialog.
#[derive(Clone, Copy, Debug, PartialEq, Eq, Structural)]
pub enum PendingAction {
    CloseTab(usize),
    Exit,
}

/// The button that closed a confirmation dialog.
#[derive(Clone, Copy, Debug, PartialEq, Eq, Structural)]
pub enum DialogResult {
    Primary,
    Secondary,
    Cancel,
}

/// What is left to do after the unsaved-changes dialog was shown.
#[derive(Clone, Copy, Debug, PartialEq, Eq, Structural)]
pub enum DialogStep {
    /// Nothing was answered yet.
    Wait,
    /// Save the document at this index, then call `finish_dialog_save`.
    SaveDocument(usize),
    /// Save every modified document, then call `finish_dialog_save`.
    SaveAll,
    /// The dialog is over; close the window when asked.
    Done { close_window: bool },
}

/// What to do to save a document.
#[derive(Debug)]
pub enum SavePlan {
    /// There is no document at that index.
    NoDocument,
    /// Write the document to the file at this path.
    WriteTo(String),
    /// Ask the user for a path, offering this file name.
    AskPath(String),
}

/// A keyboard shortcut of the notepad.
#[derive(Clone, Copy, Debug, PartialEq, Eq, Structural)]
pub enum Shortcut {
    SaveAs,
    Find,
    Save,
    NewDocument,
    Open,
    CloseTab,
}

/// File work that a shortcut leaves to the caller.
#[derive(Clone, Copy, Debug, PartialEq, Eq, Structural)]
pub enum FileCommand {
    Nothing,
    Save(usize),
    SaveAs(usize),
    Open,
}

/// What follows the document's name in the window title: '*' for unsaved edits, then
/// " - Notepad".
pub open spec fn window_title_suffix(modified: bool) -> Seq<char> {
    (if modified { seq!['*'] } else { Seq::empty() }) + " - Notepad"@
}

/// What follows the document's name in its tab: " *" for unsaved edits.
pub open spec fn tab_title_suffix(modified: bool) -> Seq<char> {
    if modified { seq![' ', '*'] } else { Seq::empty() }
}

/// The order in which shortcuts are checked: the more specific Save As before Save.
pub fn shortcut_priority() -> (r: Vec<Shortcut>)
    ensures
        r@ == seq![
            Shortcut::SaveAs,
            Shortcut::Find,
            Shortcut::Save,
            Shortcut::NewDocument,
            Shortcut::Open,
            Shortcut::CloseTab,
        ],
{
    let r = vec![
        Shortcut::SaveAs,
        Shortcut::Find,
        Shortcut::Save,
        Shortcut::NewDocument,
        Shortcut::Open,
        Shortcut::CloseTab,
    ];
    assert(r@ =~= seq![
        Shortcut::SaveAs,
        Shortcut::Find,
        Shortcut::Save,
        Shortcut::NewDocument,
        Shortcut::Open,
        Shortcut::CloseTab,
    ]);
    r
}

/// The find bar's state.
#[verifier::ext_equal]
pub struct SearchView {
    pub query: Seq<char>,
    pub visible: bool,
    pub focus_requested: bool,
    pub not_found: bool,
    pub wrap_around: bool,
    pub pending_selection: Option<(usize, TextRange)>,
}

/// The find bar: its query, whether it shows, and a match waiting to be selected.
pub struct SearchState {
    query: String,
    visible: bool,
    focus_requested: bool,
    not_found: bool,
    wrap_around: bool,
    pending_selection: Option<(usize, TextRange)>,
}

impl View for SearchState {
    type V = SearchView;

    closed spec fn view(&self) -> SearchView {
        SearchView {
            query: self.query@,
            visible: self.visible,
            focus_requested: self.focus_requested,
            not_found: self.not_found,
            wrap_around: self.wrap_around,
            pending_selection: self.pending_selection,
        }
    }
}

impl SearchState {
    /// A hidden find bar with an empty query and wrap-around on.
    pub fn new() -> (s: Self)
        ensures
            s@ == (SearchView {
                query: Seq::empty(),
                visible: false,
                focus_requested: false,
                not_found: false,
                wrap_around: true,
                pending_selection: None,
            }),
    {
        SearchState {
            query: String::new(),
            visible: false,
            focus_requested: false,
            not_found: false,
            wrap_around: true,
            pending_selection: None,
        }
    }
}

/// The state of the notepad that its decisions read and change.
#[verifier::ext_equal]
pub struct NotepadView {
    pub workspace: WorkspaceView,
    pub pending_action: Option<PendingAction>,
    pub allow_exit: bool,
    pub last_selection: Option<(usize, TextRange)>,
    pub pending_paste: bool,
    pub search: SearchView,
    pub word_wrap: bool,
    pub show_status_bar: bool,
    pub zoom_percentage: i32,
    pub cursor_line: usize,
    pub cursor_column: usize,
}

impl NotepadView {
    /// The workspace keeps its invariant, the zoom stays between 10 and 500 percent, and every
    /// remembered span has its start before its end.
    pub open spec fn wf(self) -> bool {
        &&& self.workspace.wf()
        &&& 10 <= self.zoom_percentage <= 500
        &&& (self.last_selection matches Some(s) ==> s.1.wf())
        &&& (self.search.pending_selection matches Some(s) ==> s.1.wf())
    }

    /// The document in the active tab.
    pub open spec fn active_document(self) -> DocumentView {
        self.workspace.active_document()
    }

    /// The remembered selection, when it belongs to the active document and is not empty.
    pub open spec fn active_selection(self) -> Option<TextRange> {
        match self.last_selection {
            Some(s) => if s.0 == self.active_document().id && s.1.start != s.1.end {
                Some(s.1)
            } else {
                None
            },
            None => None,
        }
    }

    /// The notepad with `d` in place of the active document.
    pub open spec fn with_active_document(self, d: DocumentView) -> NotepadView {
        NotepadView {
            workspace: WorkspaceView {
                documents: self.workspace.documents.update(self.workspace.active_tab, d),
                ..self.workspace
            },
            ..self
        }
    }

    /// The notepad with `w` as its workspace.
    pub open spec fn with_workspace(self, w: WorkspaceView) -> NotepadView {
        NotepadView { workspace: w, ..self }
    }

    /// The notepad with `s` as its find bar.
    pub open spec fn with_search(self, s: SearchView) -> NotepadView {
        NotepadView { search: s, ..self }
    }

    /// Closing the tab at `index` would need a fresh untitled document: it is the only tab.
    pub open spec fn close_needs_room(self, index: int) -> bool {
        0 <= index < self.workspace.documents.len() && self.workspace.documents.len() == 1
    }
}

/// Replacing a document by one with the same identity keeps the workspace invariant.
pub proof fn lemma_same_id_keeps_wf(w: WorkspaceView, i: int, d: DocumentView)
    requires
        w.wf(),
        0 <= i < w.documents.len(),
        d.id == w.documents[i].id,
    ensures
        (WorkspaceView { documents: w.documents.update(i, d), ..w }).wf(),
{
    let w2 = WorkspaceView { documents: w.documents.update(i, d), ..w };
    assert forall|a: int, b: int|
        0 <= a < w2.documents.len() && 0 <= b < w2.documents.len() && a != b
        implies #[trigger] w2.documents[a].id != #[trigger] w2.documents[b].id by {
        assert(w2.documents[a].id == w.documents[a].id);
        assert(w2.documents[b].id == w.documents[b].id);
    }
    assert forall|a: int| 0 <= a < w2.documents.len() implies #[trigger] w2.documents[a].id < w2.next_document_id by {
        assert(w2.documents[a].id == w.documents[a].id);
    }
}

/// Zooming in and then out returns to the zoom from before, for every zoom up to 490 percent;
/// the zoom never leaves 10 to 500 percent.
pub proof fn law_zoom_in_then_out_restores(z: int)
    requires
        10 <= z <= 490,
    ensures
        ({
            let zin = if z + 10 <= 500 { z + 10 } else { 500 };
            let zout = if zin - 10 >= 10 { zin - 10 } else { 10 };
            &&& zout == z
            &&& 10 <= zin <= 500
        }),
{
}

/// The notepad: its open documents, the find bar, the editor's remembered selection, the
/// unsaved-changes protocol and the view settings.
pub struct NotepadApp {
    workspace: Workspace,
    pending_action: Option<PendingAction>,
    allow_exit: bool,
    last_editor_selection: Option<(usize, TextRange)>,
    pending_paste: bool,
    search: SearchState,
    word_wrap: bool,
    show_status_bar: bool,
    zoom_percentage: i32,
    cursor_line: usize,
    cursor_column: usize,
}

impl View for NotepadApp {
    type V = NotepadView;

    closed spec fn view(&self) -> NotepadView {
        NotepadView {
            workspace: self.workspace@,
            pending_action: self.pending_action,
            allow_exit: self.allow_exit,
            last_selection: self.last_editor_selection,
            pending_paste: self.pending_paste,
            search: self.search@,
            word_wrap: self.word_wrap,
            show_status_bar: self.show_status_bar,
            zoom_percentage: self.zoom_percentage,
            cursor_line: self.cursor_line,
            cursor_column: self.cursor_column,
        }
    }
}

impl NotepadApp {
    /// Whether the notepad keeps its invariant.
    pub open spec fn wf(&self) -> bool {
        self@.wf()
    }

    /// A notepad with one untitled document, word wrap on, the status bar shown, zoom at 100
    /// percent and the cursor at line 1, column 1.
    pub fn new() -> (app: Self)
        ensures
            app.wf(),
            app@.workspace == initial_workspace(),
            app@.pending_action is None,
            !app@.allow_exit,
            app@.last_selection is None,
            !app@.pending_paste,
            app@.search == (SearchView {
                query: Seq::empty(),
                visible: false,
                focus_requested: false,
                not_found: false,
                wrap_around: true,
                pending_selection: None,
            }),
            app@.word_wrap,
            app@.show_status_bar,
            app@.zoom_percentage == 100,
            app@.cursor_line == 1,
            app@.cursor_column == 1,
    {
        NotepadApp {
            workspace: Workspace::new(),
            pending_action: None,
            allow_exit: false,
            last_editor_selection: None,
            pending_paste: false,
            search: SearchState::new(),
            word_wrap: true,
            show_status_bar: true,
            zoom_percentage: 100,
            cursor_line: 1,
            cursor_column: 1,
        }
    }

    /// The open documents.
    pub fn workspace(&self) -> (r: &Workspace)
        ensures
            r@ == self@.workspace,
    {
        &self.workspace
    }

    // ----- find bar -----

    /// Shows the find bar and asks for the keyboard focus on its query.
    pub fn open_find(&mut self)
        requires
            old(self).wf(),
        ensures
            final(self).wf(),
            final(self)@ == old(self)@.with_search(SearchView {
                visible: true,
                focus_requested: true,
                not_found: false,
                ..old(self)@.search
            }),
    {
        self.search.visible = true;
        self.search.focus_requested = true;
        self.search.not_found = false;
    }

    /// Hides the find bar and drops its message and its waiting match.
    pub fn close_find(&mut self)
        requires
            old(self).wf(),
        ensures
            final(self).wf(),
            final(self)@ == old(self)@.with_search(SearchView {
                visible: false,
                not_found: false,
                pending_selection: None,
                ..old(self)@.search
            }),
    {
        self.search.visible = false;
        self.search.not_found = false;
        self.search.pending_selection = None;
    }

    /// Whether the find bar shows.
    pub fn find_bar_visible(&self) -> (r: bool)
        ensures
            r == self@.search.visible,
    {
        self.search.visible
    }

    /// The find bar's query, for editing in place.
    pub fn search_query_mut(&mut self) -> (r: &mut String)
        requires
            old(self).wf(),
        ensures
            r@ == old(self)@.search.query,
            final(self)@ == old(self)@.with_search(SearchView { query: final(r)@, ..old(self)@.search }),
    {
        &mut self.search.query
    }

    /// Whether the query box should take the keyboard focus now; the request is then spent.
    pub fn take_focus_request(&mut self) -> (r: bool)
        requires
            old(self).wf(),
        ensures
            final(self).wf(),
            r == old(self)@.search.focus_requested,
            final(self)@ == old(self)@.with_search(SearchView { focus_requested: false, ..old(self)@.search }),
    {
        let r = self.search.focus_requested;
        self.search.focus_requested = false;
        r
    }

    /// The query was edited: the "not found" message goes away.
    pub fn query_edited(&mut self)
        requires
            old(self).wf(),
        ensures
            final(self).wf(),
            final(self)@ == old(self)@.with_search(SearchView { not_found: false, ..old(self)@.search }),
    {
        self.search.not_found = false;
    }

    /// Whether a search continues from the other end of the document.
    pub fn wrap_around(&self) -> (r: bool)
        ensures
            r == self@.search.wrap_around,
    {
        self.search.wrap_around
    }

    /// Sets wrap-around; changing it makes the "not found" message go away.
    pub fn set_wrap_around(&mut self, wrap_around: bool)
        requires
            old(self).wf(),
        ensures
            final(self).wf(),
            final(self)@ == old(self)@.with_search(SearchView {
                wrap_around,
                not_found: if wrap_around != old(self)@.search.wrap_around {
                    false
                } else {
                    old(self)@.search.not_found
                },
                ..old(self)@.search
            }),
    {
        if self.search.wrap_around != wrap_around {
            self.search.not_found = false;
        }
        self.search.wrap_around = wrap_around;
    }

    /// The message the find bar shows after a search found nothing: "No results found" with
    /// wrap-around on, "No more results" without it.
    pub fn not_found_message(&self) -> (r: Option<&'static str>)
        ensures
            !self@.search.not_found ==> r is None,
            self@.search.not_found && self@.search.wrap_around ==> r is Some && r.unwrap()@ == "No results found"@,
            self@.search.not_found && !self@.search.wrap_around ==> r is Some && r.unwrap()@ == "No more results"@,
    {
        if !self.search.not_found {
            None
        } else if self.search.wrap_around {
            Some("No results found")
        } else {
            Some("No more results")
        }
    }

    /// The span where "Next" continues: the end of the remembered selection when it belongs to
    /// the active document, else the start of the text.
    pub open spec fn next_search_start(v: NotepadView) -> int {
        match v.last_selection {
            Some(s) => if s.0 == v.active_document().id { s.1.end as int } else { 0 },
            None => 0,
        }
    }

    /// The span where "Previous" continues: the start of the remembered selection when it
    /// belongs to the active document, else the end of the text.
    pub open spec fn previous_search_start(v: NotepadView) -> int {
        match v.last_selection {
            Some(s) => if s.0 == v.active_document().id {
                s.1.start as int
            } else {
                v.active_document().content.len() as int
            },
            None => v.active_document().content.len() as int,
        }
    }

    /// The notepad after a search that found `found` (or nothing): the match waits to be
    /// selected in the active document, or the "not found" message shows.
    pub open spec fn after_search(v: NotepadView, found: Option<int>) -> NotepadView {
        match found {
            Some(i) => v.with_search(SearchView {
                not_found: false,
                pending_selection: Some((
                    v.active_document().id,
                    TextRange { start: i as usize, end: (i + v.search.query.len()) as usize },
                )),
                ..v.search
            }),
            None => v.with_search(SearchView { not_found: true, ..v.search }),
        }
    }

    /// The notepad after "Next", and whether a match now waits to be selected: an empty query
    /// only clears the message; otherwise the match of `next_match` from the search start.
    pub open spec fn spec_find_next(v: NotepadView) -> (NotepadView, bool) {
        if v.search.query.len() == 0 {
            (v.with_search(SearchView { not_found: false, ..v.search }), false)
        } else {
            let found = next_match(
                v.active_document().content,
                v.search.query,
                Self::next_search_start(v),
                v.search.wrap_around,
            );
            (Self::after_search(v, found), found is Some)
        }
    }

    /// The notepad after "Previous", and whether a match now waits to be selected: an empty
    /// query only clears the message; otherwise the match of `previous_match` from the search
    /// start.
    pub open spec fn spec_find_previous(v: NotepadView) -> (NotepadView, bool) {
        if v.search.query.len() == 0 {
            (v.with_search(SearchView { not_found: false, ..v.search }), false)
        } else {
            let found = previous_match(
                v.active_document().content,
                v.search.query,
                Self::previous_search_start(v),
                v.search.wrap_around,
            );
            (Self::after_search(v, found), found is Some)
        }
    }

    /// With no remembered selection in the active document, "Next" searches from the start of
    /// the text: when the query occurs, it finds its first occurrence, wrap-around on or off.
    pub proof fn law_next_without_selection_finds_first_occurrence(v: NotepadView)
        requires
            v.wf(),
            v.active_document().content.len() <= usize::MAX,
            v.search.query.len() > 0,
            !(v.last_selection matches Some(s) && s.0 == v.active_document().id),
            exists|i: int| occurs_at(v.active_document().content, v.search.query, i),
        ensures
            Self::spec_find_next(v).1,
            !Self::spec_find_next(v).0.search.not_found,
            Self::spec_find_next(v).0.search.pending_selection matches Some(s) && {
                &&& s.0 == v.active_document().id
                &&& occurs_at(v.active_document().content, v.search.query, s.1.start as int)
                &&& forall|j: int| 0 <= j < s.1.start ==> !occurs_at(v.active_document().content, v.search.query, j)
                &&& s.1.end == s.1.start + v.search.query.len()
            },
    {
        let text = v.active_document().content;
        let q = v.search.query;
        lemma_first_occurrence(text, q, 0);
        assert(Self::next_search_start(v) == 0);
        assert(clamp_index(text, 0) == 0);
    }

    /// With no remembered selection in the active document, "Previous" searches the whole text
    /// backwards from its end: when the query occurs, it finds its last occurrence, wrap-around
    /// on or off.
    pub proof fn law_previous_without_selection_finds_last_occurrence(v: NotepadView)
        requires
            v.wf(),
            v.active_document().content.len() <= usize::MAX,
            v.search.query.len() > 0,
            !(v.last_selection matches Some(s) && s.0 == v.active_document().id),
            exists|i: int| occurs_at(v.active_document().content, v.search.query, i),
        ensures
            Self::spec_find_previous(v).1,
            !Self::spec_find_previous(v).0.search.not_found,
            Self::spec_find_previous(v).0.search.pending_selection matches Some(s) && {
                &&& s.0 == v.active_document().id
                &&& occurs_at(v.active_document().content, v.search.query, s.1.start as int)
                &&& forall|j: int| s.1.start < j ==> !occurs_at(v.active_document().content, v.search.query, j)
                &&& s.1.end == s.1.start + v.search.query.len()
            },
    {
        let text = v.active_document().content;
        let q = v.search.query;
        lemma_last_occurrence(text, q, text.len() as int);
        assert(Self::previous_search_start(v) == text.len());
        assert(clamp_index(text, text.len() as int) == text.len());
        assert forall|j: int| occurs_at(text, q, j) implies j + q.len() <= text.len() by {}
    }

    /// "Next": finds the query after the current selection of the active document, wrapping
    /// around when that is on. An empty query only clears the message. Returns whether a match
    /// now waits to be selected (the editor should repaint).
    #[verifier::rlimit(40)]
    pub fn find_next(&mut self) -> (r: bool)
        requires
            old(self).wf(),
        ensures
            final(self).wf(),
            final(self)@ == Self::spec_find_next(old(self)@).0,
            r == Self::spec_find_next(old(self)@).1,
    {
        if self.search.query.as_str().is_empty() {
            self.search.not_found = false;
            return false;
        }
        let document = self.workspace.active_document();
        let document_id = document.id();
        let start: usize = match self.last_editor_selection {
            Some((id, range)) => if id == document_id { range.end } else { 0 },
            None => 0,
        };
        match find_next_match(document.content(), self.search.query.as_str(), start, self.search.wrap_around) {
            Some(i) => {
                let n = self.search.query.as_str().unicode_len();
                self.search.not_found = false;
                self.search.pending_selection = Some((document_id, TextRange { start: i, end: i + n }));
                true
            },
            None => {
                self.search.not_found = true;
                false
            },
        }
    }

    /// "Previous": finds the query before the current selection of the active document,
    /// wrapping around when that is on. An empty query only clears the message. Returns whether
    /// a match now waits to be selected (the editor should repaint).
    pub fn find_previous(&mut self) -> (r: bool)
        requires
            old(self).wf(),
        ensures
            final(self).wf(),
            final(self)@ == Self::spec_find_previous(old(self)@).0,
            r == Self::spec_find_previous(old(self)@).1,
    {
        if self.search.query.as_str().is_empty() {
            self.search.not_found = false;
            return false;
        }
        let document = self.workspace.active_document();
        let document_id = document.id();
        let text = document.content();
        let start: usize = match self.last_editor_selection {
            Some((id, range)) => if id == document_id { range.start } else { text.unicode_len() },
            None => text.unicode_len(),
        };
        match find_previous_match(text, self.search.query.as_str(), start, self.search.wrap_around) {
            Some(i) => {
                let n = self.search.query.as_str().unicode_len();
                self.search.not_found = false;
                self.search.pending_selection = Some((document_id, TextRange { start: i, end: i + n }));
                true
            },
            None => {
                self.search.not_found = true;
                false
            },
        }
    }

    /// Acts on the find bar's buttons: closing wins over "Previous", which wins over "Next".
    /// Returns whether the editor should repaint.
    pub fn handle_find_bar(&mut self, close: bool, previous: bool, next: bool) -> (r: bool)
        requires
            old(self).wf(),
        ensures
            final(self).wf(),
            close ==> !r && final(self)@ == old(self)@.with_search(SearchView {
                visible: false,
                not_found: false,
                pending_selection: None,
                ..old(self)@.search
            }),
            !close && previous ==> final(self)@ == Self::spec_find_previous(old(self)@).0
                && r == Self::spec_find_previous(old(self)@).1,
            !close && !previous && next ==> final(self)@ == Self::spec_find_next(old(self)@).0
                && r == Self::spec_find_next(old(self)@).1,
            !close && !previous && !next ==> !r && final(self)@ == old(self)@,
    {
        if close {
            self.close_find();
            false
        } else if previous {
            self.find_previous()
        } else if next {
            self.find_next()
        } else {
            false
        }
    }

    /// Takes the match that waits to be selected; it is handed out only when it belongs to the
    /// active document, and is dropped otherwise.
    pub fn take_pending_selection(&mut self) -> (r: Option<(usize, TextRange)>)
        requires
            old(self).wf(),
        ensures
            final(self).wf(),
            final(self)@ == old(self)@.with_search(SearchView { pending_selection: None, ..old(self)@.search }),
            r == (match old(self)@.search.pending_selection {
                Some(s) => if s.0 == old(self)@.active_document().id { Some(s) } else { None },
                None => None,
            }),
    {
        let pending = self.search.pending_selection;
        self.search.pending_selection = None;
        match pending {
            Some((id, range)) => {
                if id == self.workspace.active_document().id() {
                    Some((id, range))
                } else {
                    None
                }
            },
            None => None,
        }
    }

    /// Puts a match back to wait for the editor, which has not shown the document yet.
    pub fn defer_pending_selection(&mut self, document_id: usize, range: TextRange)
        requires
            old(self).wf(),
            range.wf(),
        ensures
            final(self).wf(),
            final(self)@ == old(self)@.with_search(
                SearchView { pending_selection: Some((document_id, range)), ..old(self)@.search },
            ),
    {
        self.search.pending_selection = Some((document_id, range));
    }

    /// Remembers the selection that the editor now shows.
    pub fn set_editor_selection(&mut self, selection: Option<(usize, TextRange)>)
        requires
            old(self).wf(),
            selection matches Some(s) ==> s.1.wf(),
        ensures
            final(self).wf(),
            final(self)@ == (NotepadView { last_selection: selection, ..old(self)@ }),
    {
        self.last_editor_selection = selection;
    }

    // ----- editing -----

    /// Whether the editor shows a non-empty selection in the active document.
    pub fn active_editor_has_selection(&self) -> (r: bool)
        requires
            self.wf(),
        ensures
            r == self@.active_selection() is Some,
    {
        let active_document_id = self.workspace.active_document().id();
        match self.last_editor_selection {
            Some((document_id, range)) => document_id == active_document_id && !range.is_empty(),
            None => false,
        }
    }

    /// The selected text of the active document, when something is selected.
    pub fn copy_selection(&self) -> (r: Option<String>)
        requires
            self.wf(),
        ensures
            r is Some == self@.active_selection() is Some,
            r matches Some(t) ==> t@ == char_slice(
                self@.active_document().content,
                self@.active_selection().unwrap().start as int,
                self@.active_selection().unwrap().end as int,
            ),
    {
        let document = self.workspace.active_document();
        let (document_id, range) = match self.last_editor_selection {
            Some(value) => value,
            None => return None,
        };
        if document_id != document.id() {
            return None;
        }
        if range.is_empty() {
            return None;
        }
        Some(String::from_str(read_char_range(document.content(), range.start, range.end)))
    }

    /// The notepad after the selected characters of the active document are removed: the
    /// document counts as modified and no selection is remembered.
    pub open spec fn after_deleting(v: NotepadView, range: TextRange) -> NotepadView {
        let d = v.active_document();
        NotepadView {
            last_selection: None,
            ..v.with_active_document(DocumentView {
                content: without_chars(d.content, range.start as int, range.end as int),
                modified: true,
                ..d
            })
        }
    }

    /// After a deletion, nothing is selected any more, the active document keeps its identity,
    /// and the notepad keeps its invariant.
    pub proof fn law_nothing_selected_after_delete(v: NotepadView, range: TextRange)
        requires
            v.wf(),
        ensures
            Self::after_deleting(v, range).active_selection() is None,
            Self::after_deleting(v, range).active_document().id == v.active_document().id,
            Self::after_deleting(v, range).wf(),
    {
        let d = v.active_document();
        lemma_same_id_keeps_wf(v.workspace, v.workspace.active_tab, DocumentView {
            content: without_chars(d.content, range.start as int, range.end as int),
            modified: true,
            ..d
        });
    }

    /// A match that "Next" or "Previous" leaves waiting covers an occurrence of the query in the
    /// active document.
    pub proof fn law_found_match_is_occurrence(v: NotepadView, found: Option<int>, previous: bool)
        requires
            v.wf(),
            v.search.query.len() > 0,
            v.active_document().content.len() <= usize::MAX,
            found == if previous {
                previous_match(v.active_document().content, v.search.query, Self::previous_search_start(v), v.search.wrap_around)
            } else {
                next_match(v.active_document().content, v.search.query, Self::next_search_start(v), v.search.wrap_around)
            },
            found is Some,
        ensures
            Self::after_search(v, found).search.pending_selection matches Some(s) && s.0 == v.active_document().id
                && occurs_at(v.active_document().content, v.search.query, s.1.start as int)
                && s.1.end == s.1.start + v.search.query.len(),
    {
        let text = v.active_document().content;
        let q = v.search.query;
        if previous {
            let c = clamp_index(text, Self::previous_search_start(v));
            lemma_last_occurrence(text, q, c);
            lemma_last_occurrence(text, q, text.len() as int);
        } else {
            let c = clamp_index(text, Self::next_search_start(v));
            lemma_first_occurrence(text, q, c);
            lemma_first_occurrence(text, q, 0);
        }
    }

    /// Removes the selected text of the active document. Returns the position where the cursor
    /// collapses (the start of the selection), or nothing when nothing is selected.
    pub fn delete_selection(&mut self) -> (r: Option<usize>)
        requires
            old(self).wf(),
        ensures
            final(self).wf(),
            old(self)@.active_selection() is None ==> r is None && final(self)@ == old(self)@,
            old(self)@.active_selection() matches Some(range) ==> r == Some(range.start)
                && final(self)@ == Self::after_deleting(old(self)@, range),
    {
        let document_id = self.workspace.active_document().id();
        let (selection_document_id, range) = match self.last_editor_selection {
            Some(value) => value,
            None => return None,
        };
        if selection_document_id != document_id {
            return None;
        }
        if range.is_empty() {
            return None;
        }
        let ghost w = self.workspace@;
        {
            let document = self.workspace.active_document_mut();
            remove_char_range(document.content_mut(), range.start, range.end);
            document.mark_as_modified();
        }
        proof {
            lemma_same_id_keeps_wf(w, w.active_tab, self.workspace@.active_document());
        }
        self.last_editor_selection = None;
        Some(range.start)
    }

    /// Cut: the selected text of the active document, removed from it, and the position where
    /// the cursor collapses; nothing when nothing is selected.
    pub fn cut_selection(&mut self) -> (r: Option<(String, usize)>)
        requires
            old(self).wf(),
        ensures
            final(self).wf(),
            old(self)@.active_selection() is None ==> r is None && final(self)@ == old(self)@,
            old(self)@.active_selection() matches Some(range) ==> r is Some
                && r.unwrap().0@ == char_slice(old(self)@.active_document().content, range.start as int, range.end as int)
                && r.unwrap().1 == range.start
                && final(self)@ == Self::after_deleting(old(self)@, range),
    {
        let selected = match self.copy_selection() {
            Some(text) => text,
            None => return None,
        };
        match self.delete_selection() {
            Some(start) => Some((selected, start)),
            None => None,
        }
    }

    /// Asks for a paste into the editor once it has the focus back.
    pub fn request_paste(&mut self)
        requires
            old(self).wf(),
        ensures
            final(self).wf(),
            final(self)@ == (NotepadView { pending_paste: true, ..old(self)@ }),
    {
        self.pending_paste = true;
    }

    /// When a paste was asked for: the identity of the active document, whose editor should
    /// take the focus and receive the paste; the request is then spent.
    pub fn process_pending_editor_actions(&mut self) -> (r: Option<usize>)
        requires
            old(self).wf(),
        ensures
            final(self).wf(),
            !old(self)@.pending_paste ==> r is None && final(self)@ == old(self)@,
            old(self)@.pending_paste ==> r == Some(old(self)@.active_document().id)
                && final(self)@ == (NotepadView { pending_paste: false, ..old(self)@ }),
    {
        if !self.pending_paste {
            return None;
        }
        let document_id = self.workspace.active_document().id();
        self.pending_paste = false;
        Some(document_id)
    }

    /// Puts `text`, a state from the editor's undo history, back into the active document,
    /// which then counts as modified.
    pub fn restore_active_content(&mut self, text: String)
        requires
            old(self).wf(),
        ensures
            final(self).wf(),
            final(self)@ == old(self)@.with_active_document(DocumentView {
                content: text@,
                modified: true,
                ..old(self)@.active_document()
            }),
    {
        let ghost w = self.workspace@;
        {
            let document = self.workspace.active_document_mut();
            *document.content_mut() = text;
            document.mark_as_modified();
        }
        proof {
            lemma_same_id_keeps_wf(w, w.active_tab, self.workspace@.active_document());
        }
    }

    /// The text of the active document, for the editor to change in place.
    pub fn active_content_mut(&mut self) -> (r: &mut String)
        requires
            old(self).wf(),
        ensures
            r@ == old(self)@.active_document().content,
            final(self)@ == old(self)@.with_active_document(DocumentView {
                content: final(r)@,
                ..old(self)@.active_document()
            }),
    {
        let document = self.workspace.active_document_mut();
        document.content_mut()
    }

    // ----- closing tabs and exiting -----

    /// Closes the tab at `index`, unless its document has unsaved edits: then the closing waits
    /// for the unsaved-changes dialog.
    pub fn request_close_tab(&mut self, index: usize)
        requires
            old(self).wf(),
            old(self)@.close_needs_room(index as int) && !old(self)@.workspace.modified_at(index as int)
                ==> old(self)@.workspace.can_create_untitled(),
        ensures
            final(self).wf(),
            old(self)@.workspace.modified_at(index as int) ==> final(self)@ == (NotepadView {
                pending_action: Some(PendingAction::CloseTab(index)),
                ..old(self)@
            }),
            !old(self)@.workspace.modified_at(index as int) ==> final(self)@ == old(self)@.with_workspace(
                spec_close_tab(old(self)@.workspace, index as int),
            ),
    {
        if self.document_is_modified(index) {
            self.pending_action = Some(PendingAction::CloseTab(index));
        } else {
            self.workspace.close_tab(index);
        }
    }

    /// A request to close the window must wait for the unsaved-changes dialog: it was made,
    /// exiting is not yet allowed, and some document has unsaved edits.
    pub open spec fn close_must_wait(v: NotepadView, close_requested: bool) -> bool {
        close_requested && !v.allow_exit && v.workspace.has_modified()
    }

    /// Once the exit was confirmed ("Don't Save", or a successful "Save"), closing the window is
    /// never cancelled again; before that, a window with unsaved edits is never closed without
    /// the dialog.
    pub proof fn law_confirmed_exit_is_not_cancelled(v: NotepadView)
        requires
            v.pending_action == Some(PendingAction::Exit),
        ensures
            !Self::close_must_wait(NotepadView { pending_action: None, allow_exit: true, ..v }, true),
            !v.allow_exit && v.workspace.has_modified() ==> Self::close_must_wait(v, true),
    {
    }

    /// A click on the close button of a tab with unsaved edits keeps every document; the close
    /// only waits for the dialog.
    pub proof fn law_modified_tab_is_kept(v: NotepadView, index: usize, select: Option<usize>)
        requires
            v.workspace.modified_at(index as int),
        ensures
            Self::after_tab_click(v, Some(index), select).workspace == v.workspace,
            Self::after_tab_click(v, Some(index), select).pending_action == Some(PendingAction::CloseTab(index)),
    {
    }

    /// The window was asked to close. When that must wait for the unsaved-changes dialog, the
    /// exit becomes pending and the result is true: the close must be cancelled.
    pub fn handle_close_request(&mut self, close_requested: bool) -> (cancel: bool)
        requires
            old(self).wf(),
        ensures
            final(self).wf(),
            cancel == Self::close_must_wait(old(self)@, close_requested),
            cancel ==> final(self)@ == (NotepadView { pending_action: Some(PendingAction::Exit), ..old(self)@ }),
            !cancel ==> final(self)@ == old(self)@,
    {
        if !close_requested {
            return false;
        }
        if self.allow_exit {
            return false;
        }
        if !self.workspace.has_modified_documents() {
            return false;
        }
        self.pending_action = Some(PendingAction::Exit);
        true
    }

    /// Carries out the pending action, which is then spent: a pending tab closes; a pending exit
    /// is allowed, and the result is true: the window must close.
    pub fn execute_pending_action(&mut self) -> (close_window: bool)
        requires
            old(self).wf(),
            old(self)@.pending_action matches Some(PendingAction::CloseTab(i))
                ==> (old(self)@.close_needs_room(i as int) ==> old(self)@.workspace.can_create_untitled()),
        ensures
            final(self).wf(),
            close_window == (old(self)@.pending_action == Some(PendingAction::Exit)),
            final(self)@ == (match old(self)@.pending_action {
                Some(PendingAction::CloseTab(i)) => NotepadView {
                    pending_action: None,
                    workspace: spec_close_tab(old(self)@.workspace, i as int),
                    ..old(self)@
                },
                Some(PendingAction::Exit) => NotepadView {
                    pending_action: None,
                    allow_exit: true,
                    ..old(self)@
                },
                None => old(self)@,
            }),
    {
        let pending = self.pending_action;
        self.pending_action = None;
        match pending {
            Some(PendingAction::CloseTab(index)) => {
                self.workspace.close_tab(index);
                false
            },
            Some(PendingAction::Exit) => {
                self.allow_exit = true;
                true
            },
            None => false,
        }
    }

    /// Exit from the menu: with unsaved edits the exit waits for the dialog; otherwise the
    /// result is true and the window closes now.
    pub fn request_exit(&mut self) -> (close_now: bool)
        requires
            old(self).wf(),
        ensures
            final(self).wf(),
            close_now == !old(self)@.workspace.has_modified(),
            close_now ==> final(self)@ == old(self)@,
            !close_now ==> final(self)@ == (NotepadView { pending_action: Some(PendingAction::Exit), ..old(self)@ }),
    {
        if self.workspace.has_modified_documents() {
            self.pending_action = Some(PendingAction::Exit);
            false
        } else {
            true
        }
    }

    /// Whether the window may close without asking again.
    pub fn exit_allowed(&self) -> (r: bool)
        ensures
            r == self@.allow_exit,
    {
        self.allow_exit
    }

    /// The question the unsaved-changes dialog asks, when an action waits for it.
    pub fn unsaved_changes_message(&self) -> (r: Option<&'static str>)
        ensures
            self@.pending_action is None ==> r is None,
            self@.pending_action matches Some(PendingAction::CloseTab(_)) ==> r is Some
                && r.unwrap()@ == "Do you want to save your changes?"@,
            self@.pending_action == Some(PendingAction::Exit) ==> r is Some
                && r.unwrap()@ == "Do you want to save all unsaved changes before exiting?"@,
    {
        match self.pending_action {
            Some(PendingAction::CloseTab(_)) => Some("Do you want to save your changes?"),
            Some(PendingAction::Exit) => Some("Do you want to save all unsaved changes before exiting?"),
            None => None,
        }
    }

    /// Acts on the answer of the unsaved-changes dialog. "Save" leaves the saving to the caller
    /// (then `finish_dialog_save`); "Don't Save" carries out the pending action; "Cancel" drops
    /// it; no answer, or no pending action, changes nothing.
    pub fn resolve_unsaved_changes_dialog(&mut self, result: Option<DialogResult>) -> (step: DialogStep)
        requires
            old(self).wf(),
            result == Some(DialogResult::Secondary) ==> (old(self)@.pending_action matches Some(PendingAction::CloseTab(i))
                ==> (old(self)@.close_needs_room(i as int) ==> old(self)@.workspace.can_create_untitled())),
        ensures
            final(self).wf(),
            old(self)@.pending_action is None || result is None ==> step == DialogStep::Wait && final(self)@ == old(self)@,
            result == Some(DialogResult::Primary) ==> (old(self)@.pending_action matches Some(PendingAction::CloseTab(i))
                ==> step == DialogStep::SaveDocument(i) && final(self)@ == old(self)@),
            old(self)@.pending_action == Some(PendingAction::Exit) && result == Some(DialogResult::Primary)
                ==> step == DialogStep::SaveAll && final(self)@ == old(self)@,
            old(self)@.pending_action is Some && result == Some(DialogResult::Secondary) ==> step == (DialogStep::Done {
                close_window: old(self)@.pending_action == Some(PendingAction::Exit),
            }),
            result == Some(DialogResult::Secondary) ==> (old(self)@.pending_action matches Some(PendingAction::CloseTab(i))
                ==> final(self)@ == (NotepadView {
                    pending_action: None,
                    workspace: spec_close_tab(old(self)@.workspace, i as int),
                    ..old(self)@
                })),
            old(self)@.pending_action == Some(PendingAction::Exit) && result == Some(DialogResult::Secondary)
                ==> final(self)@ == (NotepadView { pending_action: None, allow_exit: true, ..old(self)@ }),
            old(self)@.pending_action is Some && result == Some(DialogResult::Cancel)
                ==> step == (DialogStep::Done { close_window: false })
                && final(self)@ == (NotepadView { pending_action: None, ..old(self)@ }),
    {
        let pending = match self.pending_action {
            Some(action) => action,
            None => return DialogStep::Wait,
        };
        match result {
            Some(DialogResult::Primary) => match pending {
                PendingAction::CloseTab(index) => DialogStep::SaveDocument(index),
                PendingAction::Exit => DialogStep::SaveAll,
            },
            Some(DialogResult::Secondary) => DialogStep::Done { close_window: self.execute_pending_action() },
            Some(DialogResult::Cancel) => {
                self.pending_action = None;
                DialogStep::Done { close_window: false }
            },
            None => DialogStep::Wait,
        }
    }

    /// After the saving that "Save" asked for: when it succeeded, the pending action is carried
    /// out (the result says whether the window must close); otherwise it is dropped.
    pub fn finish_dialog_save(&mut self, saved: bool) -> (close_window: bool)
        requires
            old(self).wf(),
            saved ==> (old(self)@.pending_action matches Some(PendingAction::CloseTab(i))
                ==> (old(self)@.close_needs_room(i as int) ==> old(self)@.workspace.can_create_untitled())),
        ensures
            final(self).wf(),
            !saved ==> !close_window && final(self)@ == (NotepadView { pending_action: None, ..old(self)@ }),
            saved ==> close_window == (old(self)@.pending_action == Some(PendingAction::Exit)),
            saved ==> final(self)@ == (match old(self)@.pending_action {
                Some(PendingAction::CloseTab(i)) => NotepadView {
                    pending_action: None,
                    workspace: spec_close_tab(old(self)@.workspace, i as int),
                    ..old(self)@
                },
                Some(PendingAction::Exit) => NotepadView {
                    pending_action: None,
                    allow_exit: true,
                    ..old(self)@
                },
                None => old(self)@,
            }),
    {
        if saved {
            self.execute_pending_action()
        } else {
            self.pending_action = None;
            false
        }
    }

    /// The action that waits for the unsaved-changes dialog.
    pub fn pending_action(&self) -> (r: Option<PendingAction>)
        ensures
            r == self@.pending_action,
    {
        self.pending_action
    }

    // ----- files -----

    /// Opens a fresh untitled document in a new, active tab.
    pub fn request_new_document(&mut self)
        requires
            old(self).wf(),
            old(self)@.workspace.can_create_untitled(),
        ensures
            final(self).wf(),
            final(self)@ == old(self)@.with_workspace(spec_new_tab(old(self)@.workspace)),
    {
        self.workspace.new_tab();
    }

    /// When a document of the file at `path` is already open, its tab becomes active and the
    /// result is true; otherwise nothing changes and the file must be read.
    pub fn focus_open_document(&mut self, path: &str) -> (found: bool)
        requires
            old(self).wf(),
        ensures
            final(self).wf(),
            !found ==> final(self)@ == old(self)@,
            !found ==> forall|j: int| 0 <= j < old(self)@.workspace.documents.len()
                ==> old(self)@.workspace.documents[j].path != Some(path@),
            found ==> exists|i: int| {
                &&& 0 <= i < old(self)@.workspace.documents.len()
                &&& #[trigger] old(self)@.workspace.documents[i].path matches Some(p) && path_may_match(p, path@)
                &&& forall|j: int| 0 <= j < i ==> old(self)@.workspace.documents[j].path != Some(path@)
                &&& final(self)@ == old(self)@.with_workspace(spec_set_active_tab(old(self)@.workspace, i))
            },
    {
        match self.workspace.find_document_by_path(path) {
            Some(index) => {
                self.workspace.set_active_tab(index);
                true
            },
            None => false,
        }
    }

    /// Adds the file read from `path`, holding `content`, in a new, active tab.
    pub fn open_document_from_file(&mut self, path: String, content: String)
        requires
            old(self).wf(),
            old(self)@.workspace.can_open(),
        ensures
            final(self).wf(),
            final(self)@ == old(self)@.with_workspace(spec_open_document(old(self)@.workspace, path@, content@)),
    {
        self.workspace.open_document(path, content);
    }

    /// Whether the document at `index` exists and has unsaved edits.
    pub fn document_is_modified(&self, index: usize) -> (r: bool)
        ensures
            r == self@.workspace.modified_at(index as int),
    {
        match self.workspace.document(index) {
            Some(document) => document.is_modified(),
            None => false,
        }
    }

    /// "Save all": the first document at or after `from` that has unsaved edits, which is the
    /// next one to save; nothing when none is left.
    pub fn next_document_to_save(&self, from: usize) -> (r: Option<usize>)
        ensures
            r matches Some(k) ==> from <= k && self@.workspace.modified_at(k as int)
                && forall|j: int| from <= j < k ==> !self@.workspace.modified_at(j),
            r is None ==> forall|j: int| from <= j ==> !#[trigger] self@.workspace.modified_at(j),
    {
        let n = self.workspace.len();
        let mut i: usize = from;
        while i < n
            invariant
                from <= i,
                n == self@.workspace.documents.len(),
                forall|j: int| from <= j < i ==> !self@.workspace.modified_at(j),
            decreases n - i,
        {
            if self.document_is_modified(i) {
                return Some(i);
            }
            i = i + 1;
        }
        None
    }

    /// How to save the document at `index`: to its own path when it has one, else to a path the
    /// user picks, offering its display name.
    pub fn save_plan(&self, index: usize) -> (r: SavePlan)
        ensures
            index >= self@.workspace.documents.len() ==> r is NoDocument,
            index < self@.workspace.documents.len() ==> (match self@.workspace.documents[index as int].path {
                Some(p) => r matches SavePlan::WriteTo(q) && q@ == p,
                None => r matches SavePlan::AskPath(name) && name@ == self@.workspace.documents[index as int].title,
            }),
    {
        match self.workspace.document(index) {
            Some(document) => match document.path() {
                Some(path) => SavePlan::WriteTo(String::from_str(path)),
                None => SavePlan::AskPath(String::from_str(document.display_name())),
            },
            None => SavePlan::NoDocument,
        }
    }

    /// The file name to offer when saving the document at `index` under a new path: its
    /// display name.
    pub fn save_as_name(&self, index: usize) -> (r: Option<String>)
        ensures
            r is Some == (index < self@.workspace.documents.len()),
            r matches Some(name) ==> is_display_name(self@.workspace.documents[index as int], name@),
    {
        match self.workspace.document(index) {
            Some(document) => Some(String::from_str(document.display_name())),
            None => None,
        }
    }

    /// The document at `index` was written to `path`: it takes that path and counts as saved.
    /// The result is false when there is no such document.
    pub fn document_saved(&mut self, index: usize, path: String) -> (r: bool)
        requires
            old(self).wf(),
        ensures
            final(self).wf(),
            r == (index < old(self)@.workspace.documents.len()),
            !r ==> final(self)@ == old(self)@,
            r ==> final(self)@ == old(self)@.with_workspace(WorkspaceView {
                documents: old(self)@.workspace.documents.update(index as int, DocumentView {
                    path: Some(path@),
                    modified: false,
                    ..old(self)@.workspace.documents[index as int]
                }),
                ..old(self)@.workspace
            }),
    {
        let ghost w = self.workspace@;
        match self.workspace.document_mut(index) {
            Some(document) => {
                document.set_path(path);
                document.mark_as_saved();
                proof {
                    lemma_same_id_keeps_wf(w, index as int, self.workspace@.documents[index as int]);
                }
                true
            },
            None => false,
        }
    }

    // ----- view -----

    /// Makes the editor text 10 percent larger, up to 500 percent.
    pub fn zoom_in(&mut self)
        requires
            old(self).wf(),
        ensures
            final(self).wf(),
            final(self)@ == (NotepadView {
                zoom_percentage: if old(self)@.zoom_percentage + 10 <= 500 {
                    (old(self)@.zoom_percentage + 10) as i32
                } else {
                    500
                },
                ..old(self)@
            }),
    {
        let z = self.zoom_percentage + 10;
        self.zoom_percentage = if z <= 500 { z } else { 500 };
    }

    /// Makes the editor text 10 percent smaller, down to 10 percent.
    pub fn zoom_out(&mut self)
        requires
            old(self).wf(),
        ensures
            final(self).wf(),
            final(self)@ == (NotepadView {
                zoom_percentage: if old(self)@.zoom_percentage - 10 >= 10 {
                    (old(self)@.zoom_percentage - 10) as i32
                } else {
                    10
                },
                ..old(self)@
            }),
    {
        let z = self.zoom_percentage - 10;
        self.zoom_percentage = if z >= 10 { z } else { 10 };
    }

    /// Returns the editor text to its normal size.
    pub fn reset_zoom(&mut self)
        requires
            old(self).wf(),
        ensures
            final(self).wf(),
            final(self)@ == (NotepadView { zoom_percentage: 100, ..old(self)@ }),
    {
        self.zoom_percentage = 100;
    }

    /// The editor zoom, in percent.
    pub fn zoom_percentage(&self) -> (r: i32)
        ensures
            r == self@.zoom_percentage,
    {
        self.zoom_percentage
    }

    /// Whether long lines continue on the next visual line.
    pub fn word_wrap(&self) -> (r: bool)
        ensures
            r == self@.word_wrap,
    {
        self.word_wrap
    }

    /// Turns word wrap on or off.
    pub fn set_word_wrap(&mut self, word_wrap: bool)
        requires
            old(self).wf(),
        ensures
            final(self).wf(),
            final(self)@ == (NotepadView { word_wrap, ..old(self)@ }),
    {
        self.word_wrap = word_wrap;
    }

    /// Whether the status bar shows.
    pub fn status_bar_visible(&self) -> (r: bool)
        ensures
            r == self@.show_status_bar,
    {
        self.show_status_bar
    }

    /// Shows or hides the status bar.
    pub fn set_status_bar_visible(&mut self, visible: bool)
        requires
            old(self).wf(),
        ensures
            final(self).wf(),
            final(self)@ == (NotepadView { show_status_bar: visible, ..old(self)@ }),
    {
        self.show_status_bar = visible;
    }

    /// The line and column of the cursor, for the status bar.
    pub fn cursor_position(&self) -> (r: (usize, usize))
        ensures
            r == (self@.cursor_line, self@.cursor_column),
    {
        (self.cursor_line, self.cursor_column)
    }

    /// What the editor reported after showing the active document: whether its text changed,
    /// and, when it has the focus, its cursor as `(secondary, primary)` character positions.
    /// A change marks the document modified; a cursor sets the line and column of its primary
    /// end and remembers the selection, or forgets it when it is empty.
    pub fn record_editor_output(&mut self, changed: bool, cursor: Option<(usize, usize)>)
        requires
            old(self).wf(),
        ensures
            final(self).wf(),
            ({
                let edited = if changed {
                    old(self)@.with_active_document(DocumentView { modified: true, ..old(self)@.active_document() })
                } else {
                    old(self)@
                };
                match cursor {
                    None => final(self)@ == edited,
                    Some(c) => {
                        let text = old(self)@.active_document().content;
                        let before = text.take(clamp_index(text, c.1 as int));
                        let lo = if c.0 <= c.1 { c.0 } else { c.1 };
                        let hi = if c.0 <= c.1 { c.1 } else { c.0 };
                        final(self)@ == (NotepadView {
                            cursor_line: saturate(line_column(before).0) as usize,
                            cursor_column: saturate(line_column(before).1) as usize,
                            last_selection: if lo != hi {
                                Some((old(self)@.active_document().id, TextRange { start: lo, end: hi }))
                            } else {
                                None
                            },
                            ..edited
                        })
                    },
                }
            }),
    {
        let document_id = self.workspace.active_document().id();
        if changed {
            let ghost w = self.workspace@;
            self.workspace.active_document_mut().mark_as_modified();
            proof {
                lemma_same_id_keeps_wf(w, w.active_tab, self.workspace@.active_document());
            }
        }
        if let Some((secondary, primary)) = cursor {
            let (line, column) = cursor_line_column(self.workspace.active_document().content(), primary);
            self.cursor_line = line;
            self.cursor_column = column;
            let range = TextRange::new(secondary, primary);
            if !range.is_empty() {
                self.last_editor_selection = Some((document_id, range));
            } else {
                self.last_editor_selection = None;
            }
        }
    }

    /// The window title: the active document's name, a '*' when it has unsaved edits, and
    /// " - Notepad".
    pub fn window_title(&self) -> (r: String)
        requires
            self.wf(),
        ensures
            ({
                let suffix = window_title_suffix(self@.active_document().modified);
                &&& r@.len() >= suffix.len()
                &&& r@.skip(r@.len() - suffix.len()) == suffix
                &&& is_display_name(self@.active_document(), r@.take(r@.len() - suffix.len()))
            }),
    {
        let document = self.workspace.active_document();
        let name = document.display_name();
        let mut title = String::from_str(name);
        if document.is_modified() {
            title.append("*");
        }
        title.append(" - Notepad");
        proof {
            reveal_strlit("*");
        }
        let ghost suffix = window_title_suffix(self@.active_document().modified);
        assert(title@ =~= name@ + suffix);
        assert(title@.skip(title@.len() - suffix.len()) =~= suffix);
        assert(title@.take(title@.len() - suffix.len()) =~= name@);
        title
    }

    /// The label of the tab at `index`: the document's name, followed by " *" when it has
    /// unsaved edits.
    pub fn tab_title(&self, index: usize) -> (r: Option<String>)
        ensures
            r is Some == (index < self@.workspace.documents.len()),
            r matches Some(t) ==> ({
                let d = self@.workspace.documents[index as int];
                let suffix = tab_title_suffix(d.modified);
                &&& t@.len() >= suffix.len()
                &&& t@.skip(t@.len() - suffix.len()) == suffix
                &&& is_display_name(d, t@.take(t@.len() - suffix.len()))
            }),
    {
        match self.workspace.document(index) {
            Some(document) => {
                let name = document.display_name();
                let mut title = String::from_str(name);
                if document.is_modified() {
                    title.append(" *");
                }
                proof {
                    reveal_strlit(" *");
                }
                let ghost suffix = tab_title_suffix(document@.modified);
                assert(title@ =~= name@ + suffix);
                assert(title@.skip(title@.len() - suffix.len()) =~= suffix);
                assert(title@.take(title@.len() - suffix.len()) =~= name@);
                Some(title)
            },
            None => None,
        }
    }

    /// The notepad after a click on a tab's close button (`close`) or on a tab (`select`).
    pub open spec fn after_tab_click(v: NotepadView, close: Option<usize>, select: Option<usize>) -> NotepadView {
        match close {
            Some(i) => if v.workspace.modified_at(i as int) {
                NotepadView { pending_action: Some(PendingAction::CloseTab(i)), ..v }
            } else {
                v.with_workspace(spec_close_tab(v.workspace, i as int))
            },
            None => match select {
                Some(i) => v.with_workspace(spec_set_active_tab(v.workspace, i as int)),
                None => v,
            },
        }
    }

    /// Acts on the tab bar's clicks: a close button wins over selecting a tab; the "+" button
    /// then opens a new tab.
    pub fn apply_tab_requests(&mut self, close: Option<usize>, select: Option<usize>, create: bool)
        requires
            old(self).wf(),
            close matches Some(i) ==> (old(self)@.close_needs_room(i as int)
                && !old(self)@.workspace.modified_at(i as int) ==> old(self)@.workspace.can_create_untitled()),
            create ==> Self::after_tab_click(old(self)@, close, select).workspace.can_create_untitled(),
        ensures
            final(self).wf(),
            ({
                let after_click = Self::after_tab_click(old(self)@, close, select);
                final(self)@ == if create {
                    after_click.with_workspace(spec_new_tab(after_click.workspace))
                } else {
                    after_click
                }
            }),
    {
        if let Some(index) = close {
            self.request_close_tab(index);
        } else if let Some(index) = select {
            self.workspace.set_active_tab(index);
        }
        if create {
            self.workspace.new_tab();
        }
    }

    /// Carries out a shortcut: Find opens the find bar, New opens an untitled tab, Close Tab
    /// asks to close the active tab; the file work of Save, Save As and Open is left to the
    /// caller, for the active tab.
    pub fn apply_shortcut(&mut self, shortcut: Shortcut) -> (r: FileCommand)
        requires
            old(self).wf(),
            shortcut == Shortcut::NewDocument ==> old(self)@.workspace.can_create_untitled(),
            shortcut == Shortcut::CloseTab ==> (old(self)@.close_needs_room(old(self)@.workspace.active_tab)
                && !old(self)@.workspace.modified_at(old(self)@.workspace.active_tab)
                ==> old(self)@.workspace.can_create_untitled()),
        ensures
            final(self).wf(),
            shortcut == Shortcut::SaveAs ==> r == FileCommand::SaveAs(old(self)@.workspace.active_tab as usize)
                && final(self)@ == old(self)@,
            shortcut == Shortcut::Save ==> r == FileCommand::Save(old(self)@.workspace.active_tab as usize)
                && final(self)@ == old(self)@,
            shortcut == Shortcut::Open ==> r == FileCommand::Open && final(self)@ == old(self)@,
            shortcut == Shortcut::Find ==> r == FileCommand::Nothing && final(self)@ == old(self)@.with_search(
                SearchView { visible: true, focus_requested: true, not_found: false, ..old(self)@.search },
            ),
            shortcut == Shortcut::NewDocument ==> r == FileCommand::Nothing
                && final(self)@ == old(self)@.with_workspace(spec_new_tab(old(self)@.workspace)),
            shortcut == Shortcut::CloseTab ==> r == FileCommand::Nothing && ({
                let i = old(self)@.workspace.active_tab;
                if old(self)@.workspace.modified_at(i) {
                    final(self)@ == (NotepadView { pending_action: Some(PendingAction::CloseTab(i as usize)), ..old(self)@ })
                } else {
                    final(self)@ == old(self)@.with_workspace(spec_close_tab(old(self)@.workspace, i))
                }
            }),
    {
        match shortcut {
            Shortcut::SaveAs => FileCommand::SaveAs(self.workspace.active_tab()),
            Shortcut::Find => {
                self.open_find();
                FileCommand::Nothing
            },
            Shortcut::Save => FileCommand::Save(self.workspace.active_tab()),
            Shortcut::NewDocument => {
                self.request_new_document();
                FileCommand::Nothing
            },
            Shortcut::Open => FileCommand::Open,
            Shortcut::CloseTab => {
                let index = self.workspace.active_tab();
                self.request_close_tab(index);
                FileCommand::Nothing
            },
        }
    }
}

} // verus!
