//! Texts as sequences of characters: finding a pattern, cutting a text at a
//! separator, joining texts.
//!
//! Everything here is stated over `Seq<char>`, the view of `str` and `String`.
use vstd::prelude::*;

verus! {

/// Whether `pattern` stands in `text` at the position `at`.
pub open spec fn occurs_at(text: Seq<char>, pattern: Seq<char>, at: int) -> bool {
    &&& 0 <= at
    &&& at + pattern.len() <= text.len()
    &&& text.subrange(at, at + pattern.len()) == pattern
}

/// Whether `at` is the leftmost position at which `pattern` stands in `text`.
pub open spec fn is_first_occurrence(text: Seq<char>, pattern: Seq<char>, at: int) -> bool {
    &&& occurs_at(text, pattern, at)
    &&& forall|earlier: int| 0 <= earlier < at ==> !occurs_at(text, pattern, earlier)
}

/// Whether `pattern` stands anywhere in `text`.
pub open spec fn contains_pattern(text: Seq<char>, pattern: Seq<char>) -> bool {
    exists|at: int| is_first_occurrence(text, pattern, at)
}

/// The leftmost position at which `pattern` stands in `text`, where there is one.
pub open spec fn first_occurrence(text: Seq<char>, pattern: Seq<char>) -> int {
    choose|at: int| is_first_occurrence(text, pattern, at)
}

/// The pieces into which the occurrences of `separator` cut `text`, taken from
/// the left: a text without the separator is one piece, and otherwise the first
/// piece ends where the separator first stands and the others are those of what
/// follows it. Two separators in a row, or one at either end, give an empty piece.
pub open spec fn split(text: Seq<char>, separator: Seq<char>) -> Seq<Seq<char>>
    decreases text.len(),
{
    if separator.len() > 0 && contains_pattern(text, separator) {
        let at = first_occurrence(text, separator);
        seq![text.take(at)] + split(text.skip(at + separator.len()), separator)
    } else {
        seq![text]
    }
}

/// The texts of `pieces` with `separator` between each two of them.
pub open spec fn join(pieces: Seq<Seq<char>>, separator: Seq<char>) -> Seq<char>
    decreases pieces.len(),
{
    if pieces.len() == 0 {
        Seq::empty()
    } else if pieces.len() == 1 {
        pieces[0]
    } else {
        pieces[0] + separator + join(pieces.skip(1), separator)
    }
}

/// Whether `c` is white space, as `char::is_whitespace` has it.
pub open spec fn is_space(c: char) -> bool {
    let code = c as u32;
    ||| 0x09 <= code <= 0x0D
    ||| code == 0x20
    ||| code == 0x85
    ||| code == 0xA0
    ||| code == 0x1680
    ||| 0x2000 <= code <= 0x200A
    ||| code == 0x2028
    ||| code == 0x2029
    ||| code == 0x202F
    ||| code == 0x205F
    ||| code == 0x3000
}

/// `text` without the white space at its start.
pub open spec fn trim_start(text: Seq<char>) -> Seq<char>
    decreases text.len(),
{
    if text.len() > 0 && is_space(text[0]) {
        trim_start(text.skip(1))
    } else {
        text
    }
}

/// `text` without the white space at its end.
pub open spec fn trim_end(text: Seq<char>) -> Seq<char>
    decreases text.len(),
{
    if text.len() > 0 && is_space(text.last()) {
        trim_end(text.drop_last())
    } else {
        text
    }
}

/// `text` without the white space at either end, as `str::trim` gives it.
pub open spec fn trimmed(text: Seq<char>) -> Seq<char> {
    trim_end(trim_start(text))
}

/// Where `c` first stands in `text`; the length of `text` where it stands
/// nowhere.
pub open spec fn index_of(text: Seq<char>, c: char) -> int
    decreases text.len(),
{
    if text.len() == 0 || text[0] == c {
        0
    } else {
        1 + index_of(text.skip(1), c)
    }
}

/// Whether `c` stands nowhere in `text`.
pub open spec fn lacks(text: Seq<char>, c: char) -> bool {
    forall|i: int| 0 <= i < text.len() ==> text[i] != c
}

/// In a text that starts with `head`, in which `c` stands nowhere, and goes on
/// with `c`, the first `c` stands right behind `head`.
pub proof fn lemma_index_behind(head: Seq<char>, tail: Seq<char>, c: char)
    requires
        lacks(head, c),
        tail.len() > 0 ==> tail[0] == c,
    ensures
        index_of(head + tail, c) == head.len(),
    decreases head.len(),
{
    let whole = head + tail;
    if head.len() == 0 {
        assert(whole =~= tail);
    } else {
        assert(whole[0] == head[0]);
        assert(whole.skip(1) =~= head.skip(1) + tail);
        assert forall|i: int| 0 <= i < head.skip(1).len() implies head.skip(1)[i] != c by {
            assert(head.skip(1)[i] == head[i + 1]);
        }
        lemma_index_behind(head.skip(1), tail, c);
    }
}

/// A pattern stands in the rest of a text where it stands in the whole, moved
/// by what was skipped.
pub proof fn lemma_occurs_after_skip(text: Seq<char>, pattern: Seq<char>, skipped: int, at: int)
    requires
        0 <= skipped <= text.len(),
        0 <= at,
    ensures
        occurs_at(text.skip(skipped), pattern, at) <==> occurs_at(text, pattern, skipped + at),
{
    if at + pattern.len() <= text.len() - skipped {
        assert(text.skip(skipped).subrange(at, at + pattern.len()) =~= text.subrange(
            skipped + at,
            skipped + at + pattern.len(),
        ));
    }
}

/// A text has at most one leftmost occurrence of a pattern.
pub proof fn lemma_first_occurrence_unique(text: Seq<char>, pattern: Seq<char>, a: int, b: int)
    requires
        is_first_occurrence(text, pattern, a),
        is_first_occurrence(text, pattern, b),
    ensures
        a == b,
{
}

/// Where the separator first stands at `at`, the first piece is what precedes
/// it and the other pieces are those of what follows it.
pub proof fn lemma_split_at_first(text: Seq<char>, separator: Seq<char>, at: int)
    requires
        separator.len() > 0,
        is_first_occurrence(text, separator, at),
    ensures
        split(text, separator) == seq![text.take(at)] + split(
            text.skip(at + separator.len()),
            separator,
        ),
{
    lemma_first_occurrence_unique(text, separator, at, first_occurrence(text, separator));
}

/// A text in which the separator stands nowhere is a single piece.
pub proof fn lemma_split_without_separator(text: Seq<char>, separator: Seq<char>)
    requires
        forall|at: int| !occurs_at(text, separator, at),
    ensures
        split(text, separator) == seq![text],
{
}

/// The characters of `text`, one by one.
pub fn chars_of(text: &str) -> (chars: Vec<char>)
    ensures
        chars@ == text@,
{
    let mut chars: Vec<char> = Vec::new();
    for c in it: text.chars()
        invariant
            it.seq() == text@,
            chars@ == it.seq().take(it.index() as int),
    {
        chars.push(c);
    }
    assert(chars@ =~= text@);
    chars
}

/// Whether `pattern` stands in `text` at `at`. Where it would reach beyond the
/// end of `text` it does not.
pub fn matches_at(text: &Vec<char>, pattern: &Vec<char>, at: usize) -> (found: bool)
    ensures
        found == occurs_at(text@, pattern@, at as int),
{
    if pattern.len() > text.len() || at > text.len() - pattern.len() {
        return false;
    }
    let mut k: usize = 0;
    while k < pattern.len()
        invariant
            k <= pattern.len(),
            at + pattern.len() <= text.len(),
            forall|j: int| 0 <= j < k ==> text@[at + j] == pattern@[j],
        decreases pattern.len() - k,
    {
        if text[at + k] != pattern[k] {
            assert(text@.subrange(at as int, at + pattern.len())[k as int] != pattern@[k as int]);
            return false;
        }
        k += 1;
    }
    assert(text@.subrange(at as int, at + pattern.len()) =~= pattern@);
    true
}

/// Cuts `text` at each occurrence of `separator`, from the left. An empty
/// separator cuts nowhere.
pub fn split_text(text: &str, separator: &str) -> (pieces: Vec<String>)
    ensures
        pieces.deep_view() == split(text@, separator@),
{
    let chars = chars_of(text);
    let pattern = chars_of(separator);
    let n = chars.len();
    let m = pattern.len();
    let mut pieces: Vec<String> = Vec::new();
    if m == 0 {
        let whole = String::from_str(text);
        pieces.push(whole);
        assert(pieces.deep_view() =~= seq![text@]);
        return pieces;
    }
    let mut start: usize = 0;
    let mut at: usize = 0;
    assert(text@.skip(0) =~= text@);
    assert(pieces.deep_view() + split(text@, separator@) =~= split(text@, separator@));
    while m <= n - at
        invariant
            chars@ == text@,
            pattern@ == separator@,
            n == chars.len(),
            m == pattern.len(),
            m > 0,
            start <= at <= n,
            forall|j: int| start <= j < at ==> !occurs_at(text@, separator@, j),
            pieces.deep_view() + split(text@.skip(start as int), separator@) == split(
                text@,
                separator@,
            ),
        decreases n - at,
    {
        if matches_at(&chars, &pattern, at) {
            let piece = String::from_str(text.substring_char(start, at));
            proof {
                let rest = text@.skip(start as int);
                assert forall|earlier: int| 0 <= earlier < at - start implies !occurs_at(
                    rest,
                    separator@,
                    earlier,
                ) by {
                    lemma_occurs_after_skip(text@, separator@, start as int, earlier);
                }
                lemma_occurs_after_skip(text@, separator@, start as int, at - start);
                lemma_split_at_first(rest, separator@, at - start);
                assert(rest.take(at - start) =~= text@.subrange(start as int, at as int));
                assert(rest.skip(at - start + m) =~= text@.skip(at + m));
                assert(pieces.deep_view().push(piece@) + split(text@.skip(at + m), separator@)
                    =~= pieces.deep_view() + split(rest, separator@));
            }
            let ghost before = pieces.deep_view();
            pieces.push(piece);
            assert(pieces.deep_view() =~= before.push(piece@));
            at = at + m;
            start = at;
        } else {
            at = at + 1;
        }
    }
    let last = String::from_str(text.substring_char(start, n));
    proof {
        let rest = text@.skip(start as int);
        assert forall|k: int| !occurs_at(rest, separator@, k) by {
            if 0 <= k {
                lemma_occurs_after_skip(text@, separator@, start as int, k);
            }
        }
        lemma_split_without_separator(rest, separator@);
        assert(rest =~= text@.subrange(start as int, n as int));
    }
    let ghost before = pieces.deep_view();
    pieces.push(last);
    assert(pieces.deep_view() =~= before.push(last@));
    pieces
}

/// Whether two texts hold the same characters.
pub fn same_text(a: &str, b: &str) -> (same: bool)
    ensures
        same == (a@ == b@),
{
    let left = String::from_str(a);
    let right = String::from_str(b);
    left == right
}

/// `head` followed by `tail`.
pub fn followed_by(head: &str, tail: &str) -> (whole: String)
    ensures
        whole@ == head@ + tail@,
{
    let mut whole = String::from_str(head);
    whole.append(tail);
    whole
}

} // verus!
