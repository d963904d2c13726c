//! Text primitives shared by the rest of the library: Unicode case folding and
//! trimming (delegated to the standard library), stripping of wrapping
//! characters, substring search and lexicographic ordering.

use vstd::prelude::*;

verus! {

/// The Unicode lowercase mapping of a whole text, as `str::to_lowercase` computes it.
pub uninterp spec fn unicode_lowercase(text: Seq<char>) -> Seq<char>;

/// The text without its leading and trailing Unicode whitespace, as `str::trim` computes it.
pub uninterp spec fn unicode_trim(text: Seq<char>) -> Seq<char>;

/// Calls `str::to_lowercase`. Nothing is verified of the mapping itself: the
/// contract only gives the result its name, `unicode_lowercase`.
#[verifier::external_body]
pub(crate) fn lowercase(text: &str) -> (folded: String)
    ensures
        folded@ == unicode_lowercase(text@),
{
    text.to_lowercase()
}

/// Calls `str::trim`. Nothing is verified of which characters count as
/// whitespace: the contract only gives the result its name, `unicode_trim`.
#[verifier::external_body]
pub(crate) fn trim(text: &str) -> (trimmed: &str)
    ensures
        trimmed@ == unicode_trim(text@),
{
    text.trim()
}

/// A list of texts as contracts speak of it: each text by its characters.
pub open spec fn texts_view(texts: Seq<String>) -> Seq<Seq<char>> {
    texts.map_values(|text: String| text@)
}

/// The characters of `text`, in order, as a vector that can be indexed in constant time.
pub fn chars_of(text: &str) -> (chars: Vec<char>)
    ensures
        chars@ == text@,
{
    let mut chars: Vec<char> = Vec::new();
    for c in it: text.chars()
        invariant
            it.seq() == text@,
            chars@ == text@.take(it.index() as int),
    {
        chars.push(c);
    }
    chars
}

/// `left` followed by `right`.
pub fn joined(left: String, right: &str) -> (whole: String)
    ensures
        whole@ == left@ + right@,
{
    left.concat(right)
}

/// A character that may wrap a generated message and is removed from its ends:
/// the double quote and the line feed.
pub open spec fn is_wrapping(c: char) -> bool {
    c == '"' || c == '\n'
}

/// `text` without its longest prefix of wrapping characters.
pub open spec fn strip_front(text: Seq<char>) -> Seq<char>
    decreases text.len(),
{
    if text.len() > 0 && is_wrapping(text[0]) {
        strip_front(text.drop_first())
    } else {
        text
    }
}

/// `text` without its longest suffix of wrapping characters.
pub open spec fn strip_back(text: Seq<char>) -> Seq<char>
    decreases text.len(),
{
    if text.len() > 0 && is_wrapping(text.last()) {
        strip_back(text.drop_last())
    } else {
        text
    }
}

/// `text` without the wrapping characters at either end.
pub open spec fn unwrapped(text: Seq<char>) -> Seq<char> {
    strip_back(strip_front(text))
}

/// Every character of `text` is a wrapping character.
pub open spec fn all_wrapping(text: Seq<char>) -> bool {
    forall|i: int| 0 <= i < text.len() ==> is_wrapping(#[trigger] text[i])
}

/// Stripping the front removes exactly the first `k` characters when those are
/// wrapping characters and the one after them, if any, is not.
pub proof fn lemma_strip_front_is_skip(text: Seq<char>, k: int)
    requires
        0 <= k <= text.len(),
        all_wrapping(text.take(k)),
        k < text.len() ==> !is_wrapping(text[k]),
    ensures
        strip_front(text) == text.skip(k),
    decreases k,
{
    if k == 0 {
        assert(text.skip(0) =~= text);
    } else {
        assert(text.take(k)[0] == text[0]);
        let rest = text.drop_first();
        assert forall|i: int| 0 <= i < rest.take(k - 1).len() implies is_wrapping(
            #[trigger] rest.take(k - 1)[i],
        ) by {
            assert(rest.take(k - 1)[i] == text.take(k)[i + 1]);
        }
        lemma_strip_front_is_skip(rest, k - 1);
        assert(rest.skip(k - 1) =~= text.skip(k));
    }
}

/// Stripping the back keeps exactly the first `k` characters when all after
/// them are wrapping characters and the one before them, if any, is not.
pub proof fn lemma_strip_back_is_take(text: Seq<char>, k: int)
    requires
        0 <= k <= text.len(),
        all_wrapping(text.skip(k)),
        k > 0 ==> !is_wrapping(text[k - 1]),
    ensures
        strip_back(text) == text.take(k),
    decreases text.len() - k,
{
    if k == text.len() {
        assert(text.take(k) =~= text);
    } else {
        assert(text.skip(k)[text.len() - k - 1] == text.last());
        let rest = text.drop_last();
        assert forall|i: int| 0 <= i < rest.skip(k).len() implies is_wrapping(
            #[trigger] rest.skip(k)[i],
        ) by {
            assert(rest.skip(k)[i] == text.skip(k)[i]);
        }
        lemma_strip_back_is_take(rest, k);
        assert(rest.take(k) =~= text.take(k));
    }
}

/// What unwrapping leaves is the core of the text: the text is a run of
/// wrapping characters, then the core, then another such run, and a core
/// that is not empty neither begins nor ends with a wrapping character.
pub proof fn law_unwrapped_is_the_core(text: Seq<char>) -> (bounds: (int, int))
    ensures
        0 <= bounds.0 <= bounds.1 <= text.len(),
        unwrapped(text) == text.subrange(bounds.0, bounds.1),
        all_wrapping(text.take(bounds.0)),
        all_wrapping(text.skip(bounds.1)),
        unwrapped(text).len() > 0 ==> !is_wrapping(unwrapped(text).first()) && !is_wrapping(
            unwrapped(text).last(),
        ),
{
    let start = leading_run(text);
    lemma_leading_run(text);
    lemma_strip_front_is_skip(text, start);
    let tail = text.skip(start);
    let keep = tail.len() - trailing_run(tail);
    lemma_trailing_run(tail);
    lemma_strip_back_is_take(tail, keep);
    assert(tail.take(keep) =~= text.subrange(start, start + keep));
    assert(tail.skip(keep) =~= text.skip(start + keep));
    (start, start + keep)
}

/// The length of the longest prefix of wrapping characters.
pub open spec fn leading_run(text: Seq<char>) -> int
    decreases text.len(),
{
    if text.len() > 0 && is_wrapping(text[0]) {
        1 + leading_run(text.drop_first())
    } else {
        0
    }
}

/// The length of the longest suffix of wrapping characters.
pub open spec fn trailing_run(text: Seq<char>) -> int
    decreases text.len(),
{
    if text.len() > 0 && is_wrapping(text.last()) {
        1 + trailing_run(text.drop_last())
    } else {
        0
    }
}

/// The leading run is a prefix of wrapping characters that ends at the
/// first other character or at the end of the text.
proof fn lemma_leading_run(text: Seq<char>)
    ensures
        0 <= leading_run(text) <= text.len(),
        all_wrapping(text.take(leading_run(text))),
        leading_run(text) < text.len() ==> !is_wrapping(text[leading_run(text)]),
    decreases text.len(),
{
    if text.len() > 0 && is_wrapping(text[0]) {
        let rest = text.drop_first();
        lemma_leading_run(rest);
        let n = leading_run(text);
        assert forall|i: int| 0 <= i < text.take(n).len() implies is_wrapping(
            #[trigger] text.take(n)[i],
        ) by {
            if i > 0 {
                assert(text.take(n)[i] == rest.take(n - 1)[i - 1]);
            }
        }
    }
}

/// The trailing run is a suffix of wrapping characters that begins after
/// the last other character or at the start of the text.
proof fn lemma_trailing_run(text: Seq<char>)
    ensures
        0 <= trailing_run(text) <= text.len(),
        all_wrapping(text.skip(text.len() - trailing_run(text))),
        trailing_run(text) < text.len() ==> !is_wrapping(
            text[text.len() - trailing_run(text) - 1],
        ),
    decreases text.len(),
{
    if text.len() > 0 && is_wrapping(text.last()) {
        let rest = text.drop_last();
        lemma_trailing_run(rest);
        let from = text.len() - trailing_run(text);
        assert forall|i: int| 0 <= i < text.skip(from).len() implies is_wrapping(
            #[trigger] text.skip(from)[i],
        ) by {
            if i < text.skip(from).len() - 1 {
                assert(text.skip(from)[i] == rest.skip(from)[i]);
            }
        }
    }
}

/// Removes every leading and trailing double quote and line feed from `text`.
pub fn strip_wrapping(text: &str) -> (stripped: &str)
    ensures
        stripped@ == unwrapped(text@),
{
    let chars = chars_of(text);
    let n: usize = chars.len();
    let mut start: usize = 0;
    while start < n && (chars[start] == '"' || chars[start] == '\n')
        invariant
            start <= n,
            n == chars@.len(),
            all_wrapping(chars@.take(start as int)),
        decreases n - start,
    {
        start = start + 1;
        assert forall|i: int| 0 <= i < chars@.take(start as int).len() implies is_wrapping(
            #[trigger] chars@.take(start as int)[i],
        ) by {
            if i < start - 1 {
                assert(chars@.take(start as int)[i] == chars@.take(start - 1)[i]);
            }
        }
    }
    let mut end: usize = n;
    while end > start && (chars[end - 1] == '"' || chars[end - 1] == '\n')
        invariant
            start <= end <= n,
            n == chars@.len(),
            all_wrapping(chars@.skip(end as int)),
        decreases end,
    {
        end = end - 1;
        assert forall|i: int| 0 <= i < chars@.skip(end as int).len() implies is_wrapping(
            #[trigger] chars@.skip(end as int)[i],
        ) by {
            if i > 0 {
                assert(chars@.skip(end as int)[i] == chars@.skip(end + 1)[i - 1]);
            }
        }
    }
    proof {
        let whole = chars@;
        lemma_strip_front_is_skip(whole, start as int);
        let tail = whole.skip(start as int);
        let keep = end - start;
        assert forall|i: int| 0 <= i < tail.skip(keep).len() implies is_wrapping(
            #[trigger] tail.skip(keep)[i],
        ) by {
            assert(tail.skip(keep)[i] == whole.skip(end as int)[i]);
        }
        lemma_strip_back_is_take(tail, keep);
        assert(tail.take(keep) =~= whole.subrange(start as int, end as int));
    }
    text.substring_char(start, end)
}

/// `needle` stands in `hay` at position `at`.
pub open spec fn occurs_at(hay: Seq<char>, needle: Seq<char>, at: int) -> bool {
    &&& 0 <= at
    &&& at + needle.len() <= hay.len()
    &&& hay.subrange(at, at + needle.len()) == needle
}

/// `needle` is a contiguous part of `hay`. The empty text is part of every text.
pub open spec fn occurs_in(hay: Seq<char>, needle: Seq<char>) -> bool {
    exists|at: int| occurs_at(hay, needle, at)
}

/// Tells whether `needle` stands in `hay` at position `at`.
fn matches_at(hay: &Vec<char>, needle: &Vec<char>, at: usize) -> (found: bool)
    requires
        at + needle@.len() <= hay@.len(),
    ensures
        found == occurs_at(hay@, needle@, at as int),
{
    let m: usize = needle.len();
    let n: usize = hay.len();
    let mut j: usize = 0;
    while j < m
        invariant
            j <= m,
            m == needle@.len(),
            n == hay@.len(),
            at + m <= n,
            forall|k: int| 0 <= k < j ==> hay@[at + k] == needle@[k],
        decreases m - j,
    {
        if hay[at + j] != needle[j] {
            proof {
                let part = hay@.subrange(at as int, at + m);
                assert(part[j as int] == hay@[at + j]);
            }
            return false;
        }
        j = j + 1;
    }
    assert(hay@.subrange(at as int, at + m) =~= needle@);
    true
}

/// Tells whether `needle` is a contiguous part of `hay`.
pub fn contains_text(hay: &str, needle: &str) -> (found: bool)
    ensures
        found == occurs_in(hay@, needle@),
{
    let h = chars_of(hay);
    let n = chars_of(needle);
    if n.len() > h.len() {
        assert forall|at: int| !occurs_at(h@, n@, at) by {}
        return false;
    }
    let last: usize = h.len() - n.len();
    let mut at: usize = 0;
    loop
        invariant
            at <= last,
            h@ == hay@,
            n@ == needle@,
            last == h@.len() - n@.len(),
            forall|k: int| 0 <= k < at ==> !occurs_at(h@, n@, k),
        decreases last - at,
    {
        if matches_at(&h, &n, at) {
            assert(occurs_at(h@, n@, at as int));
            return true;
        }
        if at == last {
            assert forall|k: int| !occurs_at(h@, n@, k) by {}
            return false;
        }
        at = at + 1;
    }
}

/// The order of two texts as the standard library orders strings: by the
/// first character in which they differ, compared by code point, a proper
/// prefix coming before the longer text.
pub open spec fn lex_le(a: Seq<char>, b: Seq<char>) -> bool
    decreases a.len(),
{
    if a.len() == 0 {
        true
    } else if b.len() == 0 {
        false
    } else if a[0] != b[0] {
        a[0] < b[0]
    } else {
        lex_le(a.drop_first(), b.drop_first())
    }
}

/// Every text is ordered before or equal to itself.
pub proof fn lemma_lex_le_reflexive(a: Seq<char>)
    ensures
        lex_le(a, a),
    decreases a.len(),
{
    if a.len() > 0 {
        lemma_lex_le_reflexive(a.drop_first());
    }
}

/// Of two texts, one is ordered before or equal to the other.
pub proof fn lemma_lex_le_total(a: Seq<char>, b: Seq<char>)
    ensures
        lex_le(a, b) || lex_le(b, a),
    decreases a.len(),
{
    if a.len() > 0 && b.len() > 0 {
        if a[0] == b[0] {
            lemma_lex_le_total(a.drop_first(), b.drop_first());
        } else {
            assert(a[0] < b[0] || b[0] < a[0]);
        }
    }
}

/// The order is transitive.
pub proof fn lemma_lex_le_transitive(a: Seq<char>, b: Seq<char>, c: Seq<char>)
    requires
        lex_le(a, b),
        lex_le(b, c),
    ensures
        lex_le(a, c),
    decreases a.len(),
{
    if a.len() > 0 && b.len() > 0 && c.len() > 0 && a[0] == b[0] && b[0] == c[0] {
        lemma_lex_le_transitive(a.drop_first(), b.drop_first(), c.drop_first());
    }
}

/// Tells whether `a` is ordered before or equal to `b`.
pub fn text_le(a: &Vec<char>, b: &Vec<char>) -> (le: bool)
    ensures
        le == lex_le(a@, b@),
{
    let mut i: usize = 0;
    proof {
        assert(a@.skip(0) =~= a@);
        assert(b@.skip(0) =~= b@);
    }
    while i < a.len() && i < b.len()
        invariant
            i <= a@.len(),
            i <= b@.len(),
            lex_le(a@, b@) == lex_le(a@.skip(i as int), b@.skip(i as int)),
        decreases a@.len() - i,
    {
        let x: char = a[i];
        let y: char = b[i];
        proof {
            let ra = a@.skip(i as int);
            let rb = b@.skip(i as int);
            assert(ra[0] == x && rb[0] == y);
            assert(ra.drop_first() =~= a@.skip(i + 1));
            assert(rb.drop_first() =~= b@.skip(i + 1));
        }
        if x != y {
            return x < y;
        }
        i = i + 1;
    }
    proof {
        assert(a@.skip(i as int).len() == a@.len() - i);
        assert(b@.skip(i as int).len() == b@.len() - i);
    }
    i == a.len()
}

} // verus!
