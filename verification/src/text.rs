//! Text: white space, substrings, and the pieces of source text that the
//! textual checks read.

use vstd::prelude::*;
use crate::span::Span;

verus! {

/// The characters with the Unicode property `White_Space`.
pub open spec fn is_ws(c: char) -> bool {
    let n = c as u32;
    (0x09 <= n <= 0x0D) || n == 0x20 || n == 0x85 || n == 0xA0 || n == 0x1680 || (0x2000 <= n
        <= 0x200A) || n == 0x2028 || n == 0x2029 || n == 0x202F || n == 0x205F || n == 0x3000
}

/// Whether `c` is white space.
pub fn is_whitespace(c: char) -> (b: bool)
    ensures
        b == is_ws(c),
{
    let n: u32 = c as u32;
    (0x09 <= n && n <= 0x0D) || n == 0x20 || n == 0x85 || n == 0xA0 || n == 0x1680 || (0x2000 <= n
        && n <= 0x200A) || n == 0x2028 || n == 0x2029 || n == 0x202F || n == 0x205F || n == 0x3000
}

/// The characters of `s`, in order.
pub fn chars_of(s: &str) -> (v: Vec<char>)
    ensures
        v@ == s@,
{
    let mut v: Vec<char> = Vec::new();
    for c in it: s.chars()
        invariant
            it.seq() == s@,
            v@ == it.seq().take(it.index() as int),
    {
        v.push(c);
    }
    v
}


/// Whether `needle` stands in `hay` at position `i`.
pub open spec fn occurs_at(hay: Seq<char>, needle: Seq<char>, i: int) -> bool {
    0 <= i && i + needle.len() <= hay.len() && hay.subrange(i, i + needle.len()) == needle
}

/// Whether `needle` stands somewhere in `hay`.
pub open spec fn seq_contains(hay: Seq<char>, needle: Seq<char>) -> bool {
    exists|i: int| occurs_at(hay, needle, i)
}

/// `s` without its white space.
pub open spec fn strip_ws(s: Seq<char>) -> Seq<char>
    decreases s.len(),
{
    if s.len() == 0 {
        s
    } else if is_ws(s.last()) {
        strip_ws(s.drop_last())
    } else {
        strip_ws(s.drop_last()).push(s.last())
    }
}

/// The first position at or behind `i` that holds `c`, or the length of `s`.
pub open spec fn position_from(s: Seq<char>, c: char, i: int) -> int
    decreases s.len() - i,
{
    if i < 0 || i >= s.len() {
        s.len() as int
    } else if s[i] == c {
        i
    } else {
        position_from(s, c, i + 1)
    }
}

/// The first position at or behind `i` that holds no white space, or the
/// length of `s`.
pub open spec fn first_non_ws(s: Seq<char>, i: int) -> int
    decreases s.len() - i,
{
    if i < 0 || i >= s.len() {
        s.len() as int
    } else if is_ws(s[i]) {
        first_non_ws(s, i + 1)
    } else {
        i
    }
}

/// The first position at or behind `i` that holds white space, or the
/// length of `s`.
pub open spec fn first_ws(s: Seq<char>, i: int) -> int
    decreases s.len() - i,
{
    if i < 0 || i >= s.len() {
        s.len() as int
    } else if is_ws(s[i]) {
        i
    } else {
        first_ws(s, i + 1)
    }
}

/// The end of the part of `s` between `lo` and `j` that is left when the
/// white space at its end is cut off.
pub open spec fn end_without_ws(s: Seq<char>, lo: int, j: int) -> int
    decreases j - lo,
{
    if j <= lo || j > s.len() {
        lo
    } else if is_ws(s[j - 1]) {
        end_without_ws(s, lo, j - 1)
    } else {
        j
    }
}

/// `s` without the white space at its two ends.
pub open spec fn trimmed(s: Seq<char>) -> Seq<char> {
    let a = first_non_ws(s, 0);
    s.subrange(a, end_without_ws(s, a, s.len() as int))
}

/// `s` without the white space at its end.
pub open spec fn trimmed_end(s: Seq<char>) -> Seq<char> {
    s.subrange(0, end_without_ws(s, 0, s.len() as int))
}

/// What stands between the delimiters of a macro invocation whose text is
/// `snip`: the text behind the first `!`, trimmed, without its first and
/// its last character.  There is none where `snip` holds no `!`.
pub open spec fn quote_body(snip: Seq<char>) -> Option<Seq<char>> {
    let bang = position_from(snip, '!', 0);
    if bang >= snip.len() {
        None
    } else {
        let t = trimmed(snip.skip(bang + 1));
        if t.len() >= 2 {
            Some(t.subrange(1, t.len() - 1))
        } else {
            Some(Seq::empty())
        }
    }
}

/// The text `unsafe{`.
pub open spec fn unsafe_marker() -> Seq<char> {
    seq!['u', 'n', 's', 'a', 'f', 'e', '{']
}

/// The text `fn ` (with the blank).
pub open spec fn fn_marker() -> Seq<char> {
    seq!['f', 'n', ' ']
}

/// The text `async`.
pub open spec fn async_marker() -> Seq<char> {
    seq!['a', 's', 'y', 'n', 'c']
}

/// The text `is_null`.
pub open spec fn is_null_marker() -> Seq<char> {
    seq!['i', 's', '_', 'n', 'u', 'l', 'l']
}

/// The text `size`.
pub open spec fn size_marker() -> Seq<char> {
    seq!['s', 'i', 'z', 'e']
}

/// Whether `needle` stands in `hay` at position `i`.
pub fn matches_at(hay: &Vec<char>, needle: &Vec<char>, i: usize) -> (b: bool)
    ensures
        b == occurs_at(hay@, needle@, i as int),
{
    if needle.len() > hay.len() || i > hay.len() - needle.len() {
        return false;
    }
    let mut k: usize = 0;
    while k < needle.len()
        invariant
            k <= needle.len(),
            i + needle.len() <= hay.len(),
            forall|j: int| 0 <= j < k ==> hay@[i + j] == needle@[j],
        decreases needle.len() - k,
    {
        if hay[i + k] != needle[k] {
            assert(hay@.subrange(i as int, i + needle.len())[k as int] == hay@[i + k]);
            return false;
        }
        k += 1;
    }
    assert(hay@.subrange(i as int, i + needle.len()) =~= needle@);
    true
}

/// Whether `needle` stands somewhere in `hay`.
pub fn contains(hay: &Vec<char>, needle: &Vec<char>) -> (b: bool)
    ensures
        b == seq_contains(hay@, needle@),
{
    if needle.len() > hay.len() {
        return false;
    }
    let last: usize = hay.len() - needle.len();
    let mut i: usize = 0;
    while i < last
        invariant
            i <= last,
            last == hay.len() - needle.len(),
            forall|j: int| 0 <= j < i ==> !occurs_at(hay@, needle@, j),
        decreases last - i,
    {
        if matches_at(hay, needle, i) {
            return true;
        }
        i += 1;
    }
    matches_at(hay, needle, last)
}

/// Whether `hay` begins with `needle`.
pub fn starts_with(hay: &Vec<char>, needle: &Vec<char>) -> (b: bool)
    ensures
        b == occurs_at(hay@, needle@, 0),
{
    matches_at(hay, needle, 0)
}

/// Whether the two texts are the same.
pub fn same_text(a: &Vec<char>, b: &Vec<char>) -> (r: bool)
    ensures
        r == (a@ == b@),
{
    if a.len() != b.len() {
        return false;
    }
    let r = matches_at(a, b, 0);
    assert(a@.subrange(0, a@.len() as int) =~= a@);
    r
}

/// Whether `needle` stands somewhere in `hay`.
pub fn str_contains(hay: &str, needle: &str) -> (b: bool)
    ensures
        b == seq_contains(hay@, needle@),
{
    let h = chars_of(hay);
    let n = chars_of(needle);
    contains(&h, &n)
}

/// Whether the two strings hold the same text.
pub fn str_eq(a: &str, b: &str) -> (r: bool)
    ensures
        r == (a@ == b@),
{
    let x = chars_of(a);
    let y = chars_of(b);
    same_text(&x, &y)
}

/// `s` without its white space.
pub fn without_whitespace(s: &Vec<char>) -> (out: Vec<char>)
    ensures
        out@ == strip_ws(s@),
{
    let mut out: Vec<char> = Vec::new();
    let mut i: usize = 0;
    while i < s.len()
        invariant
            i <= s.len(),
            out@ == strip_ws(s@.take(i as int)),
        decreases s.len() - i,
    {
        assert(s@.take(i + 1).drop_last() =~= s@.take(i as int));
        if !is_whitespace(s[i]) {
            out.push(s[i]);
        }
        i += 1;
    }
    assert(s@.take(s@.len() as int) =~= s@);
    out
}

/// Whether the code holds an `unsafe` block: whether `unsafe{` stands in
/// it once all white space is taken out.
pub fn contains_unsafe_block(code: &str) -> (b: bool)
    ensures
        b == seq_contains(strip_ws(code@), unsafe_marker()),
{
    let chars = chars_of(code);
    let stripped = without_whitespace(&chars);
    let marker = chars_of("unsafe{");
    proof {
        reveal_strlit("unsafe{");
        assert(marker@ =~= unsafe_marker());
    }
    contains(&stripped, &marker)
}

/// The part of `s` from `from` up to `to`; nothing where the two do not
/// mark out a part of `s`.
pub open spec fn part(s: Seq<char>, from: int, to: int) -> Seq<char> {
    if 0 <= from <= to <= s.len() {
        s.subrange(from, to)
    } else {
        Seq::empty()
    }
}

/// The part of `s` from `from` up to `to`.
pub fn slice(s: &Vec<char>, from: usize, to: usize) -> (out: Vec<char>)
    ensures
        out@ == part(s@, from as int, to as int),
{
    let mut out: Vec<char> = Vec::new();
    if from > to || to > s.len() {
        return out;
    }
    assert(out@ =~= s@.subrange(from as int, from as int));
    let mut i: usize = from;
    while i < to
        invariant
            from <= i <= to,
            to <= s.len(),
            out@ == s@.subrange(from as int, i as int),
        decreases to - i,
    {
        out.push(s[i]);
        assert(out@ =~= s@.subrange(from as int, i + 1));
        i += 1;
    }
    out
}

/// The first position at or behind `from` that holds `c`, or the length.
pub fn position(s: &Vec<char>, c: char, from: usize) -> (i: usize)
    ensures
        i == position_from(s@, c, from as int),
        i <= s.len(),
{
    let mut i: usize = from;
    while i < s.len()
        invariant
            position_from(s@, c, i as int) == position_from(s@, c, from as int),
        decreases s.len() - i,
    {
        if s[i] == c {
            return i;
        }
        i += 1;
    }
    s.len()
}

/// The first position at or behind `from` that holds no white space, or
/// the length.
pub fn skip_whitespace(s: &Vec<char>, from: usize) -> (i: usize)
    ensures
        i == first_non_ws(s@, from as int),
        i <= s.len(),
        from <= s.len() ==> from <= i,
{
    let mut i: usize = from;
    while i < s.len()
        invariant
            first_non_ws(s@, i as int) == first_non_ws(s@, from as int),
            from <= i,
        decreases s.len() - i,
    {
        if !is_whitespace(s[i]) {
            return i;
        }
        i += 1;
    }
    s.len()
}

/// The first position at or behind `from` that holds white space, or the
/// length.
pub fn find_whitespace(s: &Vec<char>, from: usize) -> (i: usize)
    ensures
        i == first_ws(s@, from as int),
        i <= s.len(),
        from <= s.len() ==> from <= i,
{
    let mut i: usize = from;
    while i < s.len()
        invariant
            first_ws(s@, i as int) == first_ws(s@, from as int),
            from <= i,
        decreases s.len() - i,
    {
        if is_whitespace(s[i]) {
            return i;
        }
        i += 1;
    }
    s.len()
}

/// Where the part of `s` between `lo` and `hi` ends once the white space
/// at its end is cut off.
pub fn skip_whitespace_back(s: &Vec<char>, lo: usize, hi: usize) -> (j: usize)
    ensures
        j == end_without_ws(s@, lo as int, hi as int),
        lo <= hi ==> lo <= j <= hi,
{
    if hi > s.len() {
        return lo;
    }
    let mut j: usize = hi;
    while j > lo
        invariant
            j <= hi,
            hi <= s.len(),
            lo <= hi ==> lo <= j,
            end_without_ws(s@, lo as int, j as int) == end_without_ws(s@, lo as int, hi as int),
        decreases j,
    {
        if !is_whitespace(s[j - 1]) {
            return j;
        }
        j -= 1;
    }
    lo
}

/// `s` without the white space at its two ends.
pub fn trim(s: &Vec<char>) -> (out: Vec<char>)
    ensures
        out@ == trimmed(s@),
{
    let a = skip_whitespace(s, 0);
    let b = skip_whitespace_back(s, a, s.len());
    slice(s, a, b)
}

/// What stands between the delimiters of a macro invocation whose text is
/// `snip`.
pub fn quote_inner(snip: &Vec<char>) -> (out: Option<Vec<char>>)
    ensures
        out is Some == quote_body(snip@) is Some,
        out matches Some(v) ==> Some(v@) == quote_body(snip@),
{
    let bang = position(snip, '!', 0);
    if bang >= snip.len() {
        return None;
    }
    let rest = slice(snip, bang + 1, snip.len());
    assert(rest@ =~= snip@.skip(bang + 1));
    let t = trim(&rest);
    if t.len() >= 2 {
        Some(slice(&t, 1, t.len() - 1))
    } else {
        Some(Vec::new())
    }
}

/// The text of one source file, and the number by which the host tells
/// the file from the other files of the program.  A [`Span`] counts the
/// characters of the text.
pub struct SourceText {
    pub file: u32,
    pub chars: Vec<char>,
}

impl SourceText {
    /// The text under `sp`; there is none where `sp` is ill-formed or
    /// reaches beyond the text.
    pub open spec fn spec_snippet(&self, sp: Span) -> Option<Seq<char>> {
        if sp.lo <= sp.hi && sp.hi <= self.chars@.len() {
            Some(self.chars@.subrange(sp.lo as int, sp.hi as int))
        } else {
            None
        }
    }

    /// `sp` cut off before its first white space; `sp` itself where it has
    /// no text.
    pub open spec fn spec_until_whitespace(&self, sp: Span) -> Span {
        match self.spec_snippet(sp) {
            Some(s) => sp.spec_with_hi((sp.lo + first_ws(s, 0)) as u32),
            None => sp,
        }
    }

    /// `sp` cut off before the first `c`, with the white space before it
    /// left out; `sp` itself where it has no text, or where what is left is
    /// empty or holds a line break.
    pub open spec fn spec_until_char(&self, sp: Span, c: char) -> Span {
        match self.spec_snippet(sp) {
            Some(s) => {
                let head = trimmed_end(s.take(position_from(s, c, 0)));
                if head.len() > 0 && !head.contains('\n') {
                    sp.spec_with_hi((sp.lo + head.len()) as u32)
                } else {
                    sp
                }
            },
            None => sp,
        }
    }

    /// The range of the word `async` where the text under `sp` begins
    /// with it and white space or the end follows.
    pub open spec fn spec_async_span(&self, sp: Span) -> Option<Span> {
        let start = self.spec_until_whitespace(sp);
        if self.spec_snippet(start) == Some(async_marker()) {
            Some(start)
        } else {
            None
        }
    }

    /// The text of the file with the number `0`.
    pub fn new(text: &str) -> (src: SourceText)
        ensures
            src.chars@ == text@,
            src.file == 0,
    {
        SourceText { file: 0, chars: chars_of(text) }
    }

    /// The text of the file with the number `file`.
    pub fn in_file(file: u32, text: &str) -> (src: SourceText)
        ensures
            src.chars@ == text@,
            src.file == file,
    {
        SourceText { file, chars: chars_of(text) }
    }

    /// The text under `sp`.
    pub fn snippet(&self, sp: Span) -> (out: Option<Vec<char>>)
        ensures
            out is Some == self.spec_snippet(sp) is Some,
            out matches Some(v) ==> Some(v@) == self.spec_snippet(sp),
    {
        if sp.lo <= sp.hi && (sp.hi as usize) <= self.chars.len() {
            Some(slice(&self.chars, sp.lo as usize, sp.hi as usize))
        } else {
            None
        }
    }

    /// `sp` cut off before its first white space.
    pub fn span_until_whitespace(&self, sp: Span) -> (out: Span)
        ensures
            out == self.spec_until_whitespace(sp),
    {
        match self.snippet(sp) {
            Some(s) => {
                let n = find_whitespace(&s, 0);
                sp.with_hi(sp.lo + n as u32)
            },
            None => sp,
        }
    }

    /// `sp` cut off before the first `c` and the white space before it.
    pub fn span_until_char(&self, sp: Span, c: char) -> (out: Span)
        ensures
            out == self.spec_until_char(sp, c),
    {
        match self.snippet(sp) {
            Some(s) => {
                let cut = position(&s, c, 0);
                let end = skip_whitespace_back(&s, 0, cut);
                let head = slice(&s, 0, end);
                proof {
                    lemma_end_without_ws_prefix(s@, cut as int, cut as int);
                    assert(s@.take(cut as int).subrange(0, end as int) =~= head@);
                }
                if head.len() > 0 && !has_char(&head, '\n') {
                    sp.with_hi(sp.lo + head.len() as u32)
                } else {
                    sp
                }
            },
            None => sp,
        }
    }

    /// The range of a leading `async`, if the text under `sp` has one.
    pub fn async_span(&self, sp: Span) -> (out: Option<Span>)
        ensures
            out == self.spec_async_span(sp),
    {
        let start = self.span_until_whitespace(sp);
        match self.snippet(start) {
            Some(s) => {
                let marker = chars_of("async");
                proof {
                    reveal_strlit("async");
                    assert(marker@ =~= async_marker());
                }
                if same_text(&s, &marker) {
                    Some(start)
                } else {
                    None
                }
            },
            None => None,
        }
    }
}

/// Whether `c` stands in `s`.
pub fn has_char(s: &Vec<char>, c: char) -> (b: bool)
    ensures
        b == s@.contains(c),
{
    let mut i: usize = 0;
    while i < s.len()
        invariant
            i <= s.len(),
            forall|j: int| 0 <= j < i ==> s@[j] != c,
        decreases s.len() - i,
    {
        if s[i] == c {
            return true;
        }
        i += 1;
    }
    false
}

/// Cutting white space off the end of a prefix looks at the prefix only.
pub proof fn lemma_end_without_ws_prefix(s: Seq<char>, cut: int, j: int)
    requires
        0 <= j <= cut <= s.len(),
    ensures
        end_without_ws(s.take(cut), 0, j) == end_without_ws(s, 0, j),
    decreases j,
{
    if j > 0 {
        lemma_end_without_ws_prefix(s, cut, j - 1);
    }
}

} // verus!

verus! {

/// What `position_from` finds is the first: the character stands there
/// and nowhere between `from` and there.
pub proof fn lemma_position_is_first(s: Seq<char>, c: char, from: int)
    requires
        0 <= from <= s.len(),
    ensures
        from <= position_from(s, c, from) <= s.len(),
        position_from(s, c, from) < s.len() ==> s[position_from(s, c, from)] == c,
        forall|i: int| from <= i < position_from(s, c, from) ==> s[i] != c,
    decreases s.len() - from,
{
    if from < s.len() && s[from] != c {
        lemma_position_is_first(s, c, from + 1);
    }
}

/// Between `i` and the first white space behind it there is none.
pub proof fn lemma_first_ws_is_first(s: Seq<char>, from: int)
    requires
        0 <= from <= s.len(),
    ensures
        from <= first_ws(s, from) <= s.len(),
        first_ws(s, from) < s.len() ==> is_ws(s[first_ws(s, from)]),
        forall|i: int| from <= i < first_ws(s, from) ==> !is_ws(s[i]),
    decreases s.len() - from,
{
    if from < s.len() && !is_ws(s[from]) {
        lemma_first_ws_is_first(s, from + 1);
    }
}

/// Trimming cuts off white space only, and all of it: what is left is a
/// part of the text, neither begins nor ends with white space, and what
/// was cut off at either end is white space.
pub proof fn lemma_trimmed(s: Seq<char>)
    ensures
        ({
            let a = first_non_ws(s, 0);
            let b = end_without_ws(s, a, s.len() as int);
            &&& 0 <= a <= b <= s.len()
            &&& trimmed(s) == s.subrange(a, b)
            &&& forall|i: int| 0 <= i < a ==> is_ws(s[i])
            &&& forall|i: int| b <= i < s.len() ==> is_ws(s[i])
            &&& a < b ==> !is_ws(s[a]) && !is_ws(s[b - 1])
        }),
{
    lemma_first_non_ws(s, 0);
    let a = first_non_ws(s, 0);
    lemma_end_without_ws(s, a, s.len() as int);
}

/// Up to the first character that is no white space there is white space
/// only.
pub proof fn lemma_first_non_ws(s: Seq<char>, from: int)
    requires
        0 <= from <= s.len(),
    ensures
        from <= first_non_ws(s, from) <= s.len(),
        first_non_ws(s, from) < s.len() ==> !is_ws(s[first_non_ws(s, from)]),
        forall|i: int| from <= i < first_non_ws(s, from) ==> is_ws(s[i]),
    decreases s.len() - from,
{
    if from < s.len() && is_ws(s[from]) {
        lemma_first_non_ws(s, from + 1);
    }
}

/// Behind the end that `end_without_ws` finds there is white space only,
/// and before it there is none.
pub proof fn lemma_end_without_ws(s: Seq<char>, lo: int, j: int)
    requires
        0 <= lo <= j <= s.len(),
    ensures
        lo <= end_without_ws(s, lo, j) <= j,
        lo < end_without_ws(s, lo, j) ==> !is_ws(s[end_without_ws(s, lo, j) - 1]),
        forall|i: int| end_without_ws(s, lo, j) <= i < j ==> is_ws(s[i]),
    decreases j - lo,
{
    if j > lo && is_ws(s[j - 1]) {
        lemma_end_without_ws(s, lo, j - 1);
    }
}

/// Stripping takes out white space only: nothing of what is left is
/// white space, and a text without white space is left as it is.
pub proof fn lemma_strip_ws(s: Seq<char>)
    ensures
        forall|i: int| 0 <= i < strip_ws(s).len() ==> !is_ws(#[trigger] strip_ws(s)[i]),
        strip_ws(s).len() <= s.len(),
        (forall|i: int| 0 <= i < s.len() ==> !is_ws(#[trigger] s[i])) ==> strip_ws(s) == s,
    decreases s.len(),
{
    if s.len() > 0 {
        lemma_strip_ws(s.drop_last());
        if !is_ws(s.last()) {
            if forall|i: int| 0 <= i < s.len() ==> !is_ws(#[trigger] s[i]) {
                assert forall|i: int| 0 <= i < s.drop_last().len() implies !is_ws(
                    #[trigger] s.drop_last()[i],
                ) by {
                    assert(s.drop_last()[i] == s[i]);
                }
                assert(strip_ws(s.drop_last()).push(s.last()) =~= s);
            }
        } else {
            assert(is_ws(s[s.len() - 1]));
        }
    }
}

} // verus!
