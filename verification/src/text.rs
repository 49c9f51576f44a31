use vstd::prelude::*;
use vstd::string::*;

verus! {

/// Whether `c` has the Unicode property `White_Space`: the controls from
/// tab to carriage return, the space, next line, the no-break space, the
/// ogham space mark, the spaces from en quad to hair space, the line and the
/// paragraph separator, the narrow no-break space, the medium mathematical
/// space and the ideographic space.
pub open spec fn is_white_space(c: char) -> bool {
    let n = c as u32;
    ||| 0x0009 <= n <= 0x000D
    ||| n == 0x0020
    ||| n == 0x0085
    ||| n == 0x00A0
    ||| n == 0x1680
    ||| 0x2000 <= n <= 0x200A
    ||| n == 0x2028
    ||| n == 0x2029
    ||| n == 0x202F
    ||| n == 0x205F
    ||| n == 0x3000
}

/// The lowercase form of a text under the Unicode property `Lowercase`.
pub uninterp spec fn lowercase(s: Seq<char>) -> Seq<char>;

/// `char::is_whitespace` of std. Trusted: the result says whether the
/// character has the Unicode property `White_Space`, which `is_white_space`
/// spells out code point by code point.
#[verifier::external_body]
fn char_is_whitespace(c: char) -> (b: bool)
    ensures
        b == is_white_space(c),
{
    c.is_whitespace()
}

/// `str::to_lowercase` of std. Trusted: the result depends on the characters of
/// `s` alone, and `lowercase` names it.
#[verifier::external_body]
fn str_to_lowercase(s: &str) -> (r: String)
    ensures
        r@ == lowercase(s@),
{
    s.to_lowercase()
}

/// What a list of texts stands for.
pub open spec fn text_views(list: Seq<String>) -> Seq<Seq<char>> {
    list.map_values(|s: String| s@)
}

/// A text is blank if every character of it is whitespace.
pub open spec fn is_blank(s: Seq<char>) -> bool {
    forall|i: int| 0 <= i < s.len() ==> is_white_space(#[trigger] s[i])
}

/// `i` is the place of the first character of `s` that is no whitespace.
pub open spec fn is_first_visible(s: Seq<char>, i: int) -> bool {
    &&& 0 <= i < s.len()
    &&& !is_white_space(s[i])
    &&& forall|j: int| 0 <= j < i ==> is_white_space(#[trigger] s[j])
}

/// `i` is the place of the last character of `s` that is no whitespace.
pub open spec fn is_last_visible(s: Seq<char>, i: int) -> bool {
    &&& 0 <= i < s.len()
    &&& !is_white_space(s[i])
    &&& forall|j: int| i < j < s.len() ==> is_white_space(#[trigger] s[j])
}

/// A text without the whitespace at its two ends.
pub open spec fn trimmed(s: Seq<char>) -> Seq<char> {
    if is_blank(s) {
        Seq::empty()
    } else {
        let first = choose|i: int| is_first_visible(s, i);
        let last = choose|i: int| is_last_visible(s, i);
        s.subrange(first, last + 1)
    }
}

/// `needle` stands somewhere in `hay` as one unbroken run.
pub open spec fn occurs_at(hay: Seq<char>, needle: Seq<char>, i: int) -> bool {
    &&& 0 <= i
    &&& i + needle.len() <= hay.len()
    &&& hay.subrange(i, i + needle.len()) == needle
}

/// `needle` stands somewhere in `hay`. The empty text stands in every text.
pub open spec fn contains_text(hay: Seq<char>, needle: Seq<char>) -> bool {
    exists|i: int| occurs_at(hay, needle, i)
}

/// `prefix` stands at the start of `s`.
pub open spec fn has_prefix(s: Seq<char>, prefix: Seq<char>) -> bool {
    prefix.len() <= s.len() && s.subrange(0, prefix.len() as int) == prefix
}

/// A name passes a search filter if the filter is empty or stands in the
/// name, letter case set aside.
pub open spec fn passes_filter(name: Seq<char>, query: Seq<char>) -> bool {
    query.len() == 0 || contains_text(lowercase(name), lowercase(query))
}

/// Strict lexicographic order on texts, character by character.
pub open spec fn lex_less(a: Seq<char>, b: Seq<char>) -> bool
    decreases a.len(),
{
    if b.len() == 0 {
        false
    } else if a.len() == 0 {
        true
    } else if a[0] != b[0] {
        a[0] < b[0]
    } else {
        lex_less(a.drop_first(), b.drop_first())
    }
}

/// A text with a character that is no whitespace at place `k` has a first
/// such character.
pub proof fn lemma_first_visible_exists(s: Seq<char>, k: int)
    requires
        0 <= k < s.len(),
        !is_white_space(s[k]),
    ensures
        exists|i: int| is_first_visible(s, i) && i <= k,
    decreases k,
{
    if forall|j: int| 0 <= j < k ==> is_white_space(#[trigger] s[j]) {
        assert(is_first_visible(s, k));
    } else {
        let j = choose|j: int| 0 <= j < k && !is_white_space(#[trigger] s[j]);
        lemma_first_visible_exists(s, j);
    }
}

/// A text with a character that is no whitespace at place `k` has a last
/// such character.
pub proof fn lemma_last_visible_exists(s: Seq<char>, k: int)
    requires
        0 <= k < s.len(),
        !is_white_space(s[k]),
    ensures
        exists|i: int| is_last_visible(s, i) && k <= i,
    decreases s.len() - k,
{
    if forall|j: int| k < j < s.len() ==> is_white_space(#[trigger] s[j]) {
        assert(is_last_visible(s, k));
    } else {
        let j = choose|j: int| k < j < s.len() && !is_white_space(#[trigger] s[j]);
        lemma_last_visible_exists(s, j);
    }
}

/// A text that is not blank trims to a text that is not blank: the trimmed
/// text starts and ends with a character that is no whitespace.
pub proof fn lemma_trimmed_not_blank(s: Seq<char>)
    requires
        !is_blank(s),
    ensures
        trimmed(s).len() > 0,
        !is_blank(trimmed(s)),
        !is_white_space(trimmed(s)[0]),
        !is_white_space(trimmed(s).last()),
{
    let k = choose|k: int| 0 <= k < s.len() && !is_white_space(#[trigger] s[k]);
    lemma_first_visible_exists(s, k);
    lemma_last_visible_exists(s, k);
    let first = choose|i: int| is_first_visible(s, i);
    let last = choose|i: int| is_last_visible(s, i);
    if last < first {
        assert(is_white_space(s[last]));
    }
    let t = s.subrange(first, last + 1);
    assert(t[0] == s[first]);
    assert(t.last() == s[last]);
}

/// No text stands before itself.
pub proof fn lemma_lex_irreflexive(a: Seq<char>)
    ensures
        !lex_less(a, a),
    decreases a.len(),
{
    if a.len() > 0 {
        lemma_lex_irreflexive(a.drop_first());
    }
}

/// What stands before a text stands before all that the text stands before.
pub proof fn lemma_lex_transitive(a: Seq<char>, b: Seq<char>, c: Seq<char>)
    requires
        lex_less(a, b),
        lex_less(b, c),
    ensures
        lex_less(a, c),
    decreases a.len(),
{
    if a.len() > 0 && a[0] == b[0] && b[0] == c[0] {
        lemma_lex_transitive(a.drop_first(), b.drop_first(), c.drop_first());
    }
}

/// Of two different texts one stands before the other.
pub proof fn lemma_lex_total(a: Seq<char>, b: Seq<char>)
    ensures
        lex_less(a, b) || lex_less(b, a) || a == b,
    decreases a.len(),
{
    if a.len() > 0 && b.len() > 0 && a[0] == b[0] {
        lemma_lex_total(a.drop_first(), b.drop_first());
        if a.drop_first() == b.drop_first() {
            assert(a =~= seq![a[0]] + a.drop_first());
            assert(b =~= seq![b[0]] + b.drop_first());
        }
    } else if a.len() == 0 && b.len() == 0 {
        assert(a =~= b);
    }
}

/// Whether two texts hold the same characters.
pub fn same_text(a: &str, b: &str) -> (r: bool)
    ensures
        r == (a@ == b@),
{
    let x = a.to_owned();
    let y = b.to_owned();
    x == y
}

/// A copy of a list of texts.
pub fn copy_texts(list: &Vec<String>) -> (r: Vec<String>)
    ensures
        text_views(r@) == text_views(list@),
{
    let mut r: Vec<String> = Vec::new();
    let mut i: usize = 0;
    while i < list.len()
        invariant
            i <= list.len(),
            r@.len() == i,
            forall|j: int| 0 <= j < i ==> (#[trigger] r@[j])@ == list@[j]@,
        decreases list.len() - i,
    {
        r.push(list[i].clone());
        i += 1;
    }
    assert(text_views(r@) =~= text_views(list@));
    r
}

/// The place of a text in a list of texts, if it stands there.
pub fn find_text(list: &Vec<String>, s: &str) -> (r: Option<usize>)
    ensures
        match r {
            Some(i) => i < list.len() && text_views(list@)[i as int] == s@,
            None => !text_views(list@).contains(s@),
        },
{
    let mut i: usize = 0;
    while i < list.len()
        invariant
            i <= list.len(),
            forall|j: int| 0 <= j < i ==> #[trigger] text_views(list@)[j] != s@,
        decreases list.len() - i,
    {
        if same_text(list[i].as_str(), s) {
            return Some(i);
        }
        i += 1;
    }
    None
}

/// The characters of a text, one by one.
pub fn chars_of(s: &str) -> (v: Vec<char>)
    ensures
        v@ == s@,
{
    let mut v: Vec<char> = Vec::new();
    for c in it: s.chars()
        invariant
            v@ == it.seq().take(it.index() as int),
            it.seq() == s@,
    {
        v.push(c);
    }
    v
}

/// The lowercase form of a text, as characters.
pub fn lowercase_chars(s: &str) -> (v: Vec<char>)
    ensures
        v@ == lowercase(s@),
{
    let lower = str_to_lowercase(s);
    chars_of(lower.as_str())
}

/// Whether a text is empty or made of whitespace only.
pub fn is_blank_text(s: &str) -> (b: bool)
    ensures
        b == is_blank(s@),
{
    let v = chars_of(s);
    let mut i: usize = 0;
    while i < v.len()
        invariant
            i <= v.len(),
            v@ == s@,
            forall|j: int| 0 <= j < i ==> is_white_space(#[trigger] v@[j]),
        decreases v.len() - i,
    {
        if !char_is_whitespace(v[i]) {
            return false;
        }
        i += 1;
    }
    true
}

/// The text without the whitespace at its two ends.
pub fn trim(s: &str) -> (r: String)
    ensures
        r@ == trimmed(s@),
{
    let v = chars_of(s);
    let n = v.len();
    let mut first: usize = 0;
    while first < n && char_is_whitespace(v[first])
        invariant
            first <= n,
            n == v.len(),
            forall|j: int| 0 <= j < first ==> is_white_space(#[trigger] v@[j]),
        decreases n - first,
    {
        first += 1;
    }
    if first == n {
        return String::new();
    }
    let mut end: usize = n;
    while end > first + 1 && char_is_whitespace(v[end - 1])
        invariant
            first < end <= n,
            n == v.len(),
            !is_white_space(v@[first as int]),
            forall|j: int| end <= j < n ==> is_white_space(#[trigger] v@[j]),
        decreases end,
    {
        end -= 1;
    }
    proof {
        let t = s@;
        assert(is_first_visible(t, first as int));
        assert(is_last_visible(t, end as int - 1));
        assert forall|i: int| is_first_visible(t, i) implies i == first as int by {
            if i < first as int {
                assert(is_white_space(t[i]));
            } else if i > first as int {
                assert(is_white_space(t[first as int]));
            }
        }
        assert forall|i: int| is_last_visible(t, i) implies i == end as int - 1 by {
            if i < end as int - 1 {
                assert(is_white_space(t[end as int - 1]));
            } else if i > end as int - 1 {
                assert(is_white_space(t[i]));
            }
        }
        assert(!is_blank(t));
    }
    s.substring_char(first, end).to_owned()
}

/// Whether `needle` stands at place `at` of `hay`.
fn occurs_here(hay: &Vec<char>, needle: &Vec<char>, at: usize) -> (b: bool)
    requires
        at + needle.len() <= hay.len(),
    ensures
        b == occurs_at(hay@, needle@, at as int),
{
    let mut k: usize = 0;
    while k < needle.len()
        invariant
            k <= needle.len(),
            at + needle.len() <= hay.len(),
            forall|j: int| 0 <= j < k ==> hay@[at + j] == needle@[j],
        decreases needle.len() - k,
    {
        if hay[at + k] != needle[k] {
            assert(hay@.subrange(at as int, at + needle.len())[k as int] != needle@[k as int]);
            return false;
        }
        k += 1;
    }
    assert(hay@.subrange(at as int, at + needle.len()) =~= needle@);
    true
}

/// Whether `needle` stands somewhere in `hay`.
pub fn contains_chars(hay: &Vec<char>, needle: &Vec<char>) -> (b: bool)
    ensures
        b == contains_text(hay@, needle@),
{
    if needle.len() > hay.len() {
        return false;
    }
    let last = hay.len() - needle.len();
    let mut i: usize = 0;
    while i < last
        invariant
            i <= last,
            last == hay.len() - needle.len(),
            forall|j: int| 0 <= j < i ==> !occurs_at(hay@, needle@, j),
        decreases last - i,
    {
        if occurs_here(hay, needle, i) {
            return true;
        }
        i += 1;
    }
    occurs_here(hay, needle, last)
}

/// Whether `prefix` stands at the start of `s`.
pub fn starts_with(s: &str, prefix: &str) -> (b: bool)
    ensures
        b == has_prefix(s@, prefix@),
{
    let hay = chars_of(s);
    let needle = chars_of(prefix);
    if needle.len() > hay.len() {
        return false;
    }
    let b = occurs_here(&hay, &needle, 0);
    b
}

/// Whether a name passes a search filter.
pub fn matches_filter(name: &str, query: &str) -> (b: bool)
    ensures
        b == passes_filter(name@, query@),
{
    if query.unicode_len() == 0 {
        return true;
    }
    let hay = lowercase_chars(name);
    let needle = lowercase_chars(query);
    contains_chars(&hay, &needle)
}

/// Whether `a` stands before `b` in lexicographic order.
pub fn chars_less(a: &Vec<char>, b: &Vec<char>) -> (r: bool)
    ensures
        r == lex_less(a@, b@),
{
    let mut i: usize = 0;
    assert(a@.skip(0) =~= a@ && b@.skip(0) =~= b@);
    while i < a.len() && i < b.len()
        invariant
            i <= a.len(),
            i <= b.len(),
            lex_less(a@, b@) == lex_less(a@.skip(i as int), b@.skip(i as int)),
        decreases a.len() - i,
    {
        let x = a[i];
        let y = b[i];
        proof {
            let sa = a@.skip(i as int);
            let sb = b@.skip(i as int);
            assert(sa[0] == x && sb[0] == y);
            assert(sa.drop_first() =~= a@.skip(i + 1));
            assert(sb.drop_first() =~= b@.skip(i + 1));
        }
        if x != y {
            return x < y;
        }
        i += 1;
    }
    proof {
        let sa = a@.skip(i as int);
        let sb = b@.skip(i as int);
        assert(sa.len() == a.len() - i);
        assert(sb.len() == b.len() - i);
    }
    i < b.len()
}

} // verus!
