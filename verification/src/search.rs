use vstd::prelude::*;

use crate::text::{
    chars_of, clamp_index, find_from, find_last_before, first_occurrence_from,
    last_occurrence_before, occurs_at,
};

verus! {

/// A span of character positions in a document's text, with `start <= end` when it comes
/// from `TextRange::new`.
#[derive(Clone, Copy, Debug, PartialEq, Eq, Structural)]
pub struct TextRange {
    pub start: usize,
    pub end: usize,
}

impl TextRange {
    /// The span between two cursor positions, given in either order.
    pub fn new(a: usize, b: usize) -> (r: TextRange)
        ensures
            r.start == if a <= b { a } else { b },
            r.end == if a <= b { b } else { a },
            r.wf(),
    {
        if a <= b {
            TextRange { start: a, end: b }
        } else {
            TextRange { start: b, end: a }
        }
    }

    /// The start does not lie after the end.
    pub open spec fn wf(self) -> bool {
        self.start <= self.end
    }

    /// Whether the span holds no character.
    pub fn is_empty(&self) -> (r: bool)
        ensures
            r == (self.start == self.end),
    {
        self.start == self.end
    }
}

/// Where "Next" finds `query`: its first occurrence at or after position `from` (clamped to the
/// end of `text`), else, when `wrap_around` is on, its first occurrence in the whole text.
pub open spec fn next_match(text: Seq<char>, query: Seq<char>, from: int, wrap_around: bool) -> Option<int> {
    let ahead = first_occurrence_from(text, query, clamp_index(text, from));
    if ahead is Some {
        ahead
    } else if wrap_around {
        first_occurrence_from(text, query, 0)
    } else {
        None
    }
}

/// Where "Previous" finds `query`: its last occurrence that ends at or before position `before`
/// (clamped to the end of `text`), else, when `wrap_around` is on, its last occurrence in the
/// whole text.
pub open spec fn previous_match(text: Seq<char>, query: Seq<char>, before: int, wrap_around: bool) -> Option<int> {
    let behind = last_occurrence_before(text, query, clamp_index(text, before));
    if behind is Some {
        behind
    } else if wrap_around {
        last_occurrence_before(text, query, text.len() as int)
    } else {
        None
    }
}

/// What "Next" selects: the position where it finds `query`, as in `next_match`.
pub fn find_next_match(text: &str, query: &str, from: usize, wrap_around: bool) -> (r: Option<usize>)
    ensures
        r matches Some(i) ==> next_match(text@, query@, from as int, wrap_around) == Some(i as int),
        r is None ==> next_match(text@, query@, from as int, wrap_around) is None,
        r matches Some(i) ==> i + query@.len() <= text@.len() <= usize::MAX,
{
    let t = chars_of(text);
    let q = chars_of(query);
    let start: usize = if from <= t.len() { from } else { t.len() };
    proof {
        lemma_first_occurrence(text@, query@, start as int);
        lemma_first_occurrence(text@, query@, 0);
    }
    match find_from(&t, &q, start) {
        Some(i) => Some(i),
        None => {
            if wrap_around {
                find_from(&t, &q, 0)
            } else {
                None
            }
        },
    }
}

/// What "Previous" selects: the position where it finds `query`, as in `previous_match`.
pub fn find_previous_match(text: &str, query: &str, before: usize, wrap_around: bool) -> (r: Option<usize>)
    ensures
        r matches Some(i) ==> previous_match(text@, query@, before as int, wrap_around) == Some(i as int),
        r is None ==> previous_match(text@, query@, before as int, wrap_around) is None,
        r matches Some(i) ==> i + query@.len() <= text@.len() <= usize::MAX,
{
    let t = chars_of(text);
    let q = chars_of(query);
    let end: usize = if before <= t.len() { before } else { t.len() };
    proof {
        lemma_last_occurrence(text@, query@, end as int);
        lemma_last_occurrence(text@, query@, text@.len() as int);
    }
    match find_last_before(&t, &q, end) {
        Some(i) => Some(i),
        None => {
            if wrap_around {
                find_last_before(&t, &q, t.len())
            } else {
                None
            }
        },
    }
}

/// A position found by `first_occurrence_from` is an occurrence at or after the start, and no
/// occurrence lies between the start and it.
pub proof fn lemma_first_occurrence(text: Seq<char>, query: Seq<char>, from: int)
    requires
        0 <= from,
    ensures
        first_occurrence_from(text, query, from) matches Some(i) ==> {
            &&& from <= i
            &&& occurs_at(text, query, i)
            &&& forall|j: int| from <= j < i ==> !occurs_at(text, query, j)
        },
        first_occurrence_from(text, query, from) is None ==> forall|j: int| from <= j ==> !occurs_at(text, query, j),
    decreases text.len() - from,
{
    if from < 0 || from + query.len() > text.len() {
    } else if occurs_at(text, query, from) {
    } else if from >= text.len() {
    } else {
        lemma_first_occurrence(text, query, from + 1);
    }
}

/// A position found by `last_occurrence_before` is an occurrence that ends at or before the
/// bound, and no later occurrence does.
pub proof fn lemma_last_occurrence(text: Seq<char>, query: Seq<char>, end: int)
    requires
        end <= text.len(),
    ensures
        last_occurrence_before(text, query, end) matches Some(i) ==> {
            &&& i + query.len() <= end
            &&& occurs_at(text, query, i)
            &&& forall|j: int| i < j && j + query.len() <= end ==> !occurs_at(text, query, j)
        },
        last_occurrence_before(text, query, end) is None ==> forall|j: int|
            0 <= j && j + query.len() <= end ==> !occurs_at(text, query, j),
    decreases end,
{
    if end < query.len() || end > text.len() {
    } else if occurs_at(text, query, end - query.len()) {
    } else if end == 0 {
    } else {
        lemma_last_occurrence(text, query, end - 1);
    }
}

/// Whatever "Next" selects is an occurrence of the query; without wrapping around it starts at
/// or after the search position and no occurrence lies between the two.
pub proof fn law_next_match_is_nearest_occurrence(text: Seq<char>, query: Seq<char>, from: int, wrap_around: bool)
    requires
        0 <= from <= text.len(),
    ensures
        next_match(text, query, from, wrap_around) matches Some(i) ==> occurs_at(text, query, i),
        next_match(text, query, from, false) matches Some(i) ==> from <= i
            && forall|j: int| from <= j < i ==> !occurs_at(text, query, j),
        next_match(text, query, from, wrap_around) is None ==> forall|j: int|
            from <= j ==> !occurs_at(text, query, j),
{
    lemma_first_occurrence(text, query, from);
    lemma_first_occurrence(text, query, 0);
}

/// Whatever "Previous" selects is an occurrence of the query; without wrapping around it ends at
/// or before the search position and no later occurrence does.
pub proof fn law_previous_match_is_nearest_occurrence(text: Seq<char>, query: Seq<char>, before: int, wrap_around: bool)
    requires
        0 <= before <= text.len(),
    ensures
        previous_match(text, query, before, wrap_around) matches Some(i) ==> occurs_at(text, query, i),
        previous_match(text, query, before, false) matches Some(i) ==> i + query.len() <= before
            && forall|j: int| i < j && j + query.len() <= before ==> !occurs_at(text, query, j),
        previous_match(text, query, before, wrap_around) is None ==> forall|j: int|
            0 <= j && j + query.len() <= before ==> !occurs_at(text, query, j),
{
    lemma_last_occurrence(text, query, before);
    lemma_last_occurrence(text, query, text.len() as int);
}

} // verus!
