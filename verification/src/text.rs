use vstd::prelude::*;
use vstd::utf8::*;

verus! {

broadcast use vstd::utf8::char_is_scalar;

/// Number of bytes that `c` takes in UTF-8.
pub open spec fn utf8_width(c: char) -> nat {
    encode_scalar(c as u32).len()
}

/// Byte offset, in the UTF-8 encoding of `s`, of the character position `k`.
pub open spec fn byte_offset(s: Seq<char>, k: int) -> nat {
    encode_utf8(s.take(k)).len()
}

/// Encoding a concatenation is concatenating the encodings.
pub proof fn lemma_encode_concat(a: Seq<char>, b: Seq<char>)
    ensures
        encode_utf8(a + b) == encode_utf8(a) + encode_utf8(b),
    decreases a.len(),
{
    if a.len() == 0 {
        assert(a + b =~= b);
        assert(encode_utf8(a) =~= Seq::<u8>::empty());
        assert(encode_utf8(a) + encode_utf8(b) =~= encode_utf8(b));
    } else {
        assert((a + b).drop_first() =~= a.drop_first() + b);
        assert((a + b)[0] == a[0]);
        lemma_encode_concat(a.drop_first(), b);
        assert(encode_scalar(a[0] as u32) + (encode_utf8(a.drop_first()) + encode_utf8(b))
            =~= (encode_scalar(a[0] as u32) + encode_utf8(a.drop_first())) + encode_utf8(b));
    }
}

/// Every character takes between one and four bytes.
pub proof fn lemma_width_bounds(c: char)
    ensures
        1 <= utf8_width(c) <= 4,
{
}

/// The encoding is at least as long as the character sequence.
pub proof fn lemma_encode_len_ge(s: Seq<char>)
    ensures
        encode_utf8(s).len() >= s.len(),
    decreases s.len(),
{
    if s.len() > 0 {
        lemma_width_bounds(s[0]);
        lemma_encode_len_ge(s.drop_first());
    }
}

/// Offsets of later positions add the encoding of the characters in between.
pub proof fn lemma_offset_split(s: Seq<char>, j: int, k: int)
    requires
        0 <= j <= k <= s.len(),
    ensures
        encode_utf8(s.take(k)) == encode_utf8(s.take(j)) + encode_utf8(s.subrange(j, k)),
        byte_offset(s, k) == byte_offset(s, j) + encode_utf8(s.subrange(j, k)).len(),
        byte_offset(s, k) >= byte_offset(s, j) + (k - j),
{
    assert(s.take(k) =~= s.take(j) + s.subrange(j, k));
    lemma_encode_concat(s.take(j), s.subrange(j, k));
    lemma_encode_len_ge(s.subrange(j, k));
}

/// One more character adds its width to the offset.
pub proof fn lemma_offset_step(s: Seq<char>, k: int)
    requires
        0 <= k < s.len(),
    ensures
        byte_offset(s, k + 1) == byte_offset(s, k) + utf8_width(s[k]),
{
    lemma_offset_split(s, k, k + 1);
    assert(s.subrange(k, k + 1) =~= seq![s[k]]);
    assert(seq![s[k]].drop_first() =~= Seq::<char>::empty());
    assert(encode_utf8(seq![s[k]]) =~= encode_scalar(s[k] as u32) + encode_utf8(Seq::<char>::empty()));
}

/// The offset of the end of the text is the byte length of the text.
pub proof fn lemma_offset_full(s: Seq<char>)
    ensures
        byte_offset(s, s.len() as int) == encode_utf8(s).len(),
{
    assert(s.take(s.len() as int) =~= s);
}

/// Distinct character positions have distinct byte offsets.
pub proof fn law_byte_offset_injective(s: Seq<char>, j: int, k: int)
    requires
        0 <= j <= s.len(),
        0 <= k <= s.len(),
        byte_offset(s, j) == byte_offset(s, k),
    ensures
        j == k,
{
    if j < k {
        lemma_offset_split(s, j, k);
    } else if k < j {
        lemma_offset_split(s, k, j);
    }
}

/// Converting a character position to its byte position and back gives the position again,
/// clamped to the end of the text: the byte position is accepted, and no other character
/// position has it.
pub proof fn law_char_byte_roundtrip(s: Seq<char>, k: int)
    requires
        0 <= k,
    ensures
        is_char_position(s, byte_offset(s, clamp_index(s, k)) as int),
        forall|j: int| 0 <= j <= s.len() && #[trigger] byte_offset(s, j) == byte_offset(s, clamp_index(s, k))
            ==> j == clamp_index(s, k),
{
    let c = clamp_index(s, k);
    assert(0 <= c <= s.len() && byte_offset(s, c) == byte_offset(s, c));
    assert forall|j: int| 0 <= j <= s.len() && byte_offset(s, j) == byte_offset(s, c) implies j == c by {
        law_byte_offset_injective(s, j, c);
    }
}

/// Number of bytes that `c` takes in UTF-8.
pub fn char_utf8_width(c: char) -> (w: usize)
    ensures
        w == utf8_width(c),
        1 <= w <= 4,
{
    let u: u32 = c as u32;
    proof {
        assert(is_scalar(c as u32));
    }
    if u <= 0x7F {
        1
    } else if u <= 0x7FF {
        2
    } else if u <= 0xFFFF {
        3
    } else {
        4
    }
}

/// The characters of `text`, in order.
pub fn chars_of(text: &str) -> (v: Vec<char>)
    ensures
        v@ == text@,
{
    let mut v: Vec<char> = Vec::new();
    for c in it: text.chars()
        invariant
            it.seq() == text@,
            v@.len() == it.index(),
            forall|i: int| 0 <= i < it.index() ==> v@[i] == text@[i],
    {
        v.push(c);
    }
    assert(v@ =~= text@);
    v
}

/// Byte position, in `text`, of the character position `char_index`; the byte length of
/// `text` when `char_index` is past its last character.
pub fn char_to_byte_index(text: &str, char_index: usize) -> (b: usize)
    ensures
        b == byte_offset(text@, if char_index <= text@.len() { char_index as int } else { text@.len() as int }),
{
    let bytes = text.as_bytes();
    let total: usize = bytes.len();
    let chars = chars_of(text);
    let n: usize = chars.len();
    let limit: usize = if char_index < n { char_index } else { n };
    proof {
        lemma_offset_full(text@);
    }
    let mut i: usize = 0;
    let mut b: usize = 0;
    while i < limit
        invariant
            i <= limit <= n,
            n == text@.len(),
            chars@ == text@,
            b == byte_offset(text@, i as int),
            byte_offset(text@, n as int) == total,
        decreases limit - i,
    {
        proof {
            lemma_offset_step(text@, i as int);
            lemma_offset_split(text@, i as int + 1, n as int);
        }
        b = b + char_utf8_width(chars[i]);
        i = i + 1;
    }
    b
}

/// True when `byte_index` is the byte position of some character position of `s`
/// (the end of `s` included).
pub open spec fn is_char_position(s: Seq<char>, byte_index: int) -> bool {
    exists|k: int| 0 <= k <= s.len() && byte_offset(s, k) == byte_index
}

/// Character position of the byte position `byte_index` of `text`.
pub fn byte_to_char_index(text: &str, byte_index: usize) -> (k: usize)
    requires
        is_char_position(text@, byte_index as int),
    ensures
        k <= text@.len(),
        byte_offset(text@, k as int) == byte_index,
{
    let ghost target: int = choose|k: int| 0 <= k <= text@.len() && byte_offset(text@, k) == byte_index;
    let chars = chars_of(text);
    let n: usize = chars.len();
    let mut i: usize = 0;
    let mut b: usize = 0;
    while b < byte_index
        invariant
            0 <= target <= n,
            n == text@.len(),
            chars@ == text@,
            byte_offset(text@, target) == byte_index,
            i <= target,
            b == byte_offset(text@, i as int),
            b <= byte_index,
        decreases byte_index - b,
    {
        proof {
            assert((i as int) < target);
            lemma_offset_step(text@, i as int);
            lemma_offset_split(text@, i as int + 1, target);
        }
        b = b + char_utf8_width(chars[i]);
        i = i + 1;
    }
    proof {
        if (i as int) < target {
            lemma_offset_split(text@, i as int, target);
        }
    }
    i
}

/// True when `query` occurs in `text` starting at character position `i`.
pub open spec fn occurs_at(text: Seq<char>, query: Seq<char>, i: int) -> bool {
    &&& 0 <= i
    &&& i + query.len() <= text.len()
    &&& text.subrange(i, i + query.len()) == query
}

/// The first character position at or after `from` where `query` occurs in `text`.
pub open spec fn first_occurrence_from(text: Seq<char>, query: Seq<char>, from: int) -> Option<int>
    decreases text.len() - from,
{
    if from < 0 || from + query.len() > text.len() {
        None
    } else if occurs_at(text, query, from) {
        Some(from)
    } else if from >= text.len() {
        None
    } else {
        first_occurrence_from(text, query, from + 1)
    }
}

/// The last character position where `query` occurs in `text` and ends at or before
/// character position `end`.
pub open spec fn last_occurrence_before(text: Seq<char>, query: Seq<char>, end: int) -> Option<int>
    decreases end,
{
    if end < query.len() || end > text.len() {
        None
    } else if occurs_at(text, query, end - query.len()) {
        Some(end - query.len())
    } else if end == 0 {
        None
    } else {
        last_occurrence_before(text, query, end - 1)
    }
}

/// Whether `query` occurs in `text` at position `i`.
pub fn matches_at(text: &Vec<char>, query: &Vec<char>, i: usize) -> (r: bool)
    requires
        i + query@.len() <= text@.len(),
    ensures
        r == occurs_at(text@, query@, i as int),
{
    let m: usize = query.len();
    let n: usize = text.len();
    let mut j: usize = 0;
    while j < m
        invariant
            i + m <= text@.len(),
            n == text@.len(),
            m == query@.len(),
            j <= m,
            forall|t: int| 0 <= t < j ==> text@[i + t] == query@[t],
        decreases m - j,
    {
        if text[i + j] != query[j] {
            proof {
                assert(text@.subrange(i as int, i + m)[j as int] != query@[j as int]);
            }
            return false;
        }
        j = j + 1;
    }
    proof {
        assert(text@.subrange(i as int, i + m) =~= query@);
    }
    true
}

/// The first position at or after `from` where `query` occurs in `text`.
pub fn find_from(text: &Vec<char>, query: &Vec<char>, from: usize) -> (r: Option<usize>)
    ensures
        r matches Some(i) ==> first_occurrence_from(text@, query@, from as int) == Some(i as int),
        r is None ==> first_occurrence_from(text@, query@, from as int) is None,
{
    let n: usize = text.len();
    let m: usize = query.len();
    if m > n {
        return None;
    }
    let mut i: usize = from;
    while i <= n - m
        invariant
            m <= n,
            n == text@.len(),
            m == query@.len(),
            from <= i,
            first_occurrence_from(text@, query@, from as int) == first_occurrence_from(text@, query@, i as int),
        decreases n - i,
    {
        if matches_at(text, query, i) {
            return Some(i);
        }
        if i == n - m {
            proof {
                assert(first_occurrence_from(text@, query@, i as int + 1) is None);
            }
            return None;
        }
        i = i + 1;
    }
    None
}

/// The last position where `query` occurs in `text` ending at or before `end`.
pub fn find_last_before(text: &Vec<char>, query: &Vec<char>, end: usize) -> (r: Option<usize>)
    requires
        end <= text@.len(),
    ensures
        r matches Some(i) ==> last_occurrence_before(text@, query@, end as int) == Some(i as int),
        r is None ==> last_occurrence_before(text@, query@, end as int) is None,
{
    let m: usize = query.len();
    let mut e: usize = end;
    while e >= m
        invariant
            e <= end <= text@.len(),
            m == query@.len(),
            last_occurrence_before(text@, query@, end as int) == last_occurrence_before(text@, query@, e as int),
        decreases e,
    {
        if matches_at(text, query, e - m) {
            return Some(e - m);
        }
        if e == 0 {
            return None;
        }
        e = e - 1;
    }
    None
}

/// `i`, or the length of `s` when `i` lies past its end.
pub open spec fn clamp_index(s: Seq<char>, i: int) -> int {
    if i <= s.len() {
        i
    } else {
        s.len() as int
    }
}

/// The characters of `s` from position `start` up to `end`, both clamped to the end of `s`.
pub open spec fn char_slice(s: Seq<char>, start: int, end: int) -> Seq<char> {
    s.subrange(clamp_index(s, start), clamp_index(s, end))
}

/// `s` without the characters from position `start` up to `end`, both clamped to the end of `s`.
pub open spec fn without_chars(s: Seq<char>, start: int, end: int) -> Seq<char> {
    s.take(clamp_index(s, start)) + s.skip(clamp_index(s, end))
}

/// Putting the removed characters back where they were restores the text: what a cut removes
/// and a paste at the collapsed cursor inserts again.
pub proof fn law_removed_chars_reinserted_restore_text(s: Seq<char>, start: int, end: int)
    requires
        0 <= start <= end,
    ensures
        without_chars(s, start, end).take(clamp_index(s, start)) + char_slice(s, start, end)
            + without_chars(s, start, end).skip(clamp_index(s, start)) == s,
        without_chars(s, start, end).len() == s.len() - (clamp_index(s, end) - clamp_index(s, start)),
{
    let a = clamp_index(s, start);
    let b = clamp_index(s, end);
    let w = without_chars(s, start, end);
    assert(w.take(a) =~= s.take(a));
    assert(w.skip(a) =~= s.skip(b));
    assert(s.take(a) + s.subrange(a, b) + s.skip(b) =~= s);
}

/// egui's `TextBuffer::delete_char_range` on a `String`. Its source turns both character
/// positions into byte positions (a position past the last character becomes the byte length)
/// and drains the bytes in between; it asserts that `start <= end`.
#[verifier::external_body]
pub fn remove_char_range(text: &mut String, start: usize, end: usize)
    requires
        start <= end,
    ensures
        final(text)@ == without_chars(old(text)@, start as int, end as int),
{
    eframe::egui::TextBuffer::delete_char_range(
        text,
        eframe::egui::text::CharIndex(start)..eframe::egui::text::CharIndex(end),
    );
}

/// egui's `slice_char_range`, which its `TextBuffer::char_range` calls. Its source turns both
/// character positions into byte positions (a position past the last character becomes the
/// byte length) and slices the text between them; it asserts that `start <= end`.
#[verifier::external_body]
pub fn read_char_range(text: &str, start: usize, end: usize) -> (r: &str)
    requires
        start <= end,
    ensures
        r@ == char_slice(text@, start as int, end as int),
{
    eframe::egui::text_selection::text_cursor_state::slice_char_range(
        text,
        eframe::egui::text::CharIndex(start)..eframe::egui::text::CharIndex(end),
    )
}

/// Line and column (both counted from 1) just after the characters of `s`.
pub open spec fn line_column(s: Seq<char>) -> (nat, nat)
    decreases s.len(),
{
    if s.len() == 0 {
        (1, 1)
    } else {
        let prev = line_column(s.drop_last());
        if s.last() == '\n' {
            (prev.0 + 1, 1)
        } else {
            (prev.0, prev.1 + 1)
        }
    }
}

/// Number of line breaks in `s`.
pub open spec fn newline_count(s: Seq<char>) -> nat
    decreases s.len(),
{
    if s.len() == 0 {
        0
    } else {
        newline_count(s.drop_last()) + if s.last() == '\n' { 1nat } else { 0nat }
    }
}

/// Each character moves the cursor by one column, whatever its width in bytes; a line break
/// moves it to the first column of the next line.
pub proof fn law_each_character_is_one_column(s: Seq<char>, c: char)
    ensures
        c != '\n' ==> line_column(s.push(c)) == (line_column(s).0, line_column(s).1 + 1),
        c == '\n' ==> line_column(s.push(c)) == (line_column(s).0 + 1, 1nat),
{
    assert(s.push(c).drop_last() =~= s);
}

/// The line is one more than the number of line breaks before the cursor, and the column is one
/// more than the number of characters after the last of them.
pub proof fn law_line_and_column_count_characters(s: Seq<char>, k: int)
    requires
        0 <= k <= s.len(),
        forall|j: int| k <= j < s.len() ==> s[j] != '\n',
        k == 0 || s[k - 1] == '\n',
    ensures
        line_column(s).0 == newline_count(s) + 1,
        line_column(s).1 == (s.len() - k) + 1,
    decreases s.len(),
{
    if s.len() == 0 {
    } else if s.last() == '\n' {
        assert(k == s.len());
        let t = s.drop_last();
        lemma_line_start(t);
        let kt = choose_line_start(t);
        law_line_and_column_count_characters(t, kt);
    } else {
        let t = s.drop_last();
        assert(k < s.len());
        law_line_and_column_count_characters(t, k);
    }
}

/// The position just after the last line break of `s`, or 0 when it has none.
pub open spec fn choose_line_start(s: Seq<char>) -> int
    decreases s.len(),
{
    if s.len() == 0 {
        0
    } else if s.last() == '\n' {
        s.len() as int
    } else {
        choose_line_start(s.drop_last())
    }
}

/// `choose_line_start` is where the cursor's line begins.
pub proof fn lemma_line_start(s: Seq<char>)
    ensures
        0 <= choose_line_start(s) <= s.len(),
        forall|j: int| choose_line_start(s) <= j < s.len() ==> s[j] != '\n',
        choose_line_start(s) == 0 || s[choose_line_start(s) - 1] == '\n',
    decreases s.len(),
{
    if s.len() > 0 && s.last() != '\n' {
        lemma_line_start(s.drop_last());
        let t = s.drop_last();
        assert forall|j: int| choose_line_start(s) <= j < s.len() implies s[j] != '\n' by {
            if j < t.len() {
                assert(s[j] == t[j]);
            }
        }
    }
}

/// `x`, or `usize::MAX` when `x` does not fit in a `usize`.
pub open spec fn saturate(x: nat) -> nat {
    if x <= usize::MAX {
        x
    } else {
        usize::MAX as nat
    }
}

/// Line and column (both from 1) of the character position `cursor` in `text`; a position
/// past the end counts as the end.
pub fn cursor_line_column(text: &str, cursor: usize) -> (r: (usize, usize))
    ensures
        r.0 == saturate(line_column(text@.take(clamp_index(text@, cursor as int))).0),
        r.1 == saturate(line_column(text@.take(clamp_index(text@, cursor as int))).1),
{
    let chars = chars_of(text);
    let n: usize = chars.len();
    let limit: usize = if cursor < n { cursor } else { n };
    let mut line: usize = 1;
    let mut column: usize = 1;
    let mut i: usize = 0;
    while i < limit
        invariant
            i <= limit <= n,
            n == text@.len(),
            chars@ == text@,
            limit as int == clamp_index(text@, cursor as int),
            line == saturate(line_column(text@.take(i as int)).0),
            column == saturate(line_column(text@.take(i as int)).1),
        decreases limit - i,
    {
        proof {
            assert(text@.take(i as int + 1).drop_last() =~= text@.take(i as int));
        }
        if chars[i] == '\n' {
            line = line.saturating_add(1);
            column = 1;
        } else {
            column = column.saturating_add(1);
        }
        i = i + 1;
    }
    (line, column)
}

/// The decimal digit `d` as a character.
pub open spec fn digit_char(d: nat) -> char {
    (48 + d) as char
}

/// Decimal notation of `n`, without leading zeros.
pub open spec fn decimal(n: nat) -> Seq<char>
    decreases n,
{
    if n < 10 {
        seq![digit_char(n)]
    } else {
        decimal(n / 10).push(digit_char(n % 10))
    }
}

/// The one-character text of the decimal digit `d`.
fn digit_text(d: usize) -> (s: &'static str)
    requires
        d < 10,
    ensures
        s@ == seq![digit_char(d as nat)],
{
    proof {
        reveal_strlit("0");
        reveal_strlit("1");
        reveal_strlit("2");
        reveal_strlit("3");
        reveal_strlit("4");
        reveal_strlit("5");
        reveal_strlit("6");
        reveal_strlit("7");
        reveal_strlit("8");
        reveal_strlit("9");
    }
    if d == 0 {
        "0"
    } else if d == 1 {
        "1"
    } else if d == 2 {
        "2"
    } else if d == 3 {
        "3"
    } else if d == 4 {
        "4"
    } else if d == 5 {
        "5"
    } else if d == 6 {
        "6"
    } else if d == 7 {
        "7"
    } else if d == 8 {
        "8"
    } else {
        "9"
    }
}

/// Decimal notation of `n`.
pub fn decimal_string(n: usize) -> (s: String)
    ensures
        s@ == decimal(n as nat),
    decreases n,
{
    if n < 10 {
        String::from_str(digit_text(n))
    } else {
        let mut s = decimal_string(n / 10);
        s.append(digit_text(n % 10));
        s
    }
}

} // verus!
