//! Text handling on characters: trimming, identity folding and substring
//! search. Source-app names, pin patterns and list patterns are all compared
//! in their folded form.
use vstd::prelude::*;
use vstd::string::*;

verus! {

/// Whether `c` has the Unicode `White_Space` property.
pub open spec fn is_space(c: char) -> bool {
    let u = c as u32;
    ||| 9 <= u <= 13
    ||| u == 32
    ||| u == 0x85
    ||| u == 0xA0
    ||| u == 0x1680
    ||| 0x2000 <= u <= 0x200A
    ||| u == 0x2028
    ||| u == 0x2029
    ||| u == 0x202F
    ||| u == 0x205F
    ||| u == 0x3000
}

/// Decides the Unicode `White_Space` property.
pub fn char_is_space(c: char) -> (r: bool)
    ensures
        r == is_space(c),
{
    let u: u32 = c as u32;
    (9 <= u && u <= 13) || u == 32 || u == 0x85 || u == 0xA0 || u == 0x1680 || (0x2000 <= u && u <= 0x200A)
        || u == 0x2028 || u == 0x2029 || u == 0x202F || u == 0x205F || u == 0x3000
}

/// The number of leading whitespace characters.
pub open spec fn leading_space(s: Seq<char>) -> nat
    decreases s.len(),
{
    if s.len() == 0 || !is_space(s[0]) {
        0
    } else {
        1 + leading_space(s.skip(1))
    }
}

/// The length of `s` without its trailing whitespace.
pub open spec fn trailing_end(s: Seq<char>) -> nat
    decreases s.len(),
{
    if s.len() == 0 || !is_space(s.last()) {
        s.len()
    } else {
        trailing_end(s.drop_last())
    }
}

/// `s` without leading and trailing whitespace.
pub open spec fn trimmed(s: Seq<char>) -> Seq<char> {
    let t = s.take(trailing_end(s) as int);
    t.skip(leading_space(t) as int)
}

proof fn lemma_trailing_end_bound(s: Seq<char>)
    ensures
        trailing_end(s) <= s.len(),
    decreases s.len(),
{
    if s.len() > 0 && is_space(s.last()) {
        lemma_trailing_end_bound(s.drop_last());
    }
}

proof fn lemma_leading_space_bound(s: Seq<char>)
    ensures
        leading_space(s) <= s.len(),
    decreases s.len(),
{
    if s.len() > 0 && is_space(s[0]) {
        lemma_leading_space_bound(s.skip(1));
    }
}

proof fn lemma_trailing_end_step(s: Seq<char>, end: int)
    requires
        0 < end <= s.len(),
    ensures
        is_space(s[end - 1]) ==> trailing_end(s.take(end)) == trailing_end(s.take(end - 1)),
        !is_space(s[end - 1]) ==> trailing_end(s.take(end)) == end,
{
    assert(s.take(end).drop_last() =~= s.take(end - 1));
    assert(s.take(end).last() == s[end - 1]);
}

proof fn lemma_leading_space_step(s: Seq<char>, from: int)
    requires
        0 <= from < s.len(),
    ensures
        is_space(s[from]) ==> leading_space(s.skip(from)) == 1 + leading_space(s.skip(from + 1)),
        !is_space(s[from]) ==> leading_space(s.skip(from)) == 0,
{
    assert(s.skip(from).skip(1) =~= s.skip(from + 1));
    assert(s.skip(from)[0] == s[from]);
}

/// `s` without leading and trailing whitespace.
pub fn trim(s: &str) -> (r: String)
    ensures
        r@ == trimmed(s@),
{
    let n: usize = s.unicode_len();
    let mut end: usize = n;
    proof {
        assert(s@.take(n as int) =~= s@);
    }
    while end > 0 && char_is_space(s.get_char(end - 1))
        invariant
            n == s@.len(),
            end <= n,
            trailing_end(s@) == trailing_end(s@.take(end as int)),
        decreases end,
    {
        proof {
            lemma_trailing_end_step(s@, end as int);
        }
        end = end - 1;
    }
    proof {
        if end > 0 {
            lemma_trailing_end_step(s@, end as int);
        } else {
            assert(s@.take(0).len() == 0);
        }
    }
    let ghost t = s@.take(end as int);
    assert(trailing_end(s@) == end);
    let mut start: usize = 0;
    proof {
        assert(t.skip(0) =~= t);
    }
    while start < end && char_is_space(s.get_char(start))
        invariant
            n == s@.len(),
            start <= end <= n,
            t == s@.take(end as int),
            leading_space(t) == start + leading_space(t.skip(start as int)),
        decreases end - start,
    {
        proof {
            lemma_leading_space_step(t, start as int);
        }
        start = start + 1;
    }
    proof {
        if start < end {
            lemma_leading_space_step(t, start as int);
        } else {
            assert(t.skip(start as int).len() == 0);
        }
        assert(s@.subrange(start as int, end as int) =~= t.skip(start as int));
    }
    let piece = s.substring_char(start, end);
    String::from_str(piece)
}

/// Trimming leaves nothing to trim at either end.
pub proof fn law_trimmed_has_no_outer_space(s: Seq<char>)
    ensures
        trimmed(s).len() > 0 ==> !is_space(trimmed(s)[0]) && !is_space(trimmed(s).last()),
{
    let e = trailing_end(s) as int;
    let t = s.take(e);
    lemma_trailing_end_bound(s);
    lemma_leading_space_bound(t);
    lemma_trailing_end_at(s);
    lemma_leading_space_at(t);
    let k = leading_space(t) as int;
    if trimmed(s).len() > 0 {
        assert(trimmed(s)[0] == t[k]);
        assert(trimmed(s).last() == t[e - 1]);
    }
}

proof fn lemma_trailing_end_at(s: Seq<char>)
    ensures
        trailing_end(s) <= s.len(),
        trailing_end(s) > 0 ==> !is_space(s[trailing_end(s) - 1]),
    decreases s.len(),
{
    if s.len() > 0 && is_space(s.last()) {
        lemma_trailing_end_at(s.drop_last());
    }
}

proof fn lemma_leading_space_at(s: Seq<char>)
    ensures
        leading_space(s) <= s.len(),
        leading_space(s) < s.len() ==> !is_space(s[leading_space(s) as int]),
    decreases s.len(),
{
    if s.len() > 0 && is_space(s[0]) {
        lemma_leading_space_at(s.skip(1));
    }
}

/// Whether `c` is an ASCII letter or digit.
pub open spec fn ascii_alphanumeric(c: char) -> bool {
    ('a' <= c <= 'z') || ('A' <= c <= 'Z') || ('0' <= c <= '9')
}

/// The ASCII lower-case form of `c`.
pub open spec fn ascii_lower(c: char) -> char {
    if 'A' <= c <= 'Z' {
        ((c as u32) + 32) as char
    } else {
        c
    }
}

/// What `char::is_alphanumeric` answers.
pub uninterp spec fn char_alphanumeric(c: char) -> bool;

/// `char::is_alphanumeric`. The answer is a function of the character; on
/// ASCII it is true of exactly the letters and digits.
#[verifier::external_body]
fn is_alphanumeric(c: char) -> (r: bool)
    ensures
        r == char_alphanumeric(c),
        (c as u32) < 128 ==> r == ascii_alphanumeric(c),
{
    c.is_alphanumeric()
}

/// The characters that `char::to_lowercase` yields.
pub uninterp spec fn char_lowercase(c: char) -> Seq<char>;

/// `char::to_lowercase`, collected. The result is a function of the
/// character; an ASCII character yields its one ASCII lower-case form.
#[verifier::external_body]
fn to_lowercase(c: char) -> (r: Vec<char>)
    ensures
        r@ == char_lowercase(c),
        (c as u32) < 128 ==> r@ == seq![ascii_lower(c)],
{
    c.to_lowercase().collect()
}

/// The folded form of one character: nothing for a word-boundary character
/// (whatever is not a letter or digit), its lower-case form otherwise. On
/// ASCII both are plain to see.
pub open spec fn folded_char(c: char) -> Seq<char> {
    let is_word = if (c as u32) < 128 {
        ascii_alphanumeric(c)
    } else {
        char_alphanumeric(c)
    };
    if !is_word {
        Seq::empty()
    } else if (c as u32) < 128 {
        seq![ascii_lower(c)]
    } else {
        char_lowercase(c)
    }
}

/// The folded form of a text: case and word boundaries carry no meaning.
pub open spec fn folded(s: Seq<char>) -> Seq<char>
    decreases s.len(),
{
    if s.len() == 0 {
        Seq::empty()
    } else {
        folded(s.drop_last()) + folded_char(s.last())
    }
}

/// Whether two characters are the same but for ASCII case.
pub open spec fn same_but_case(a: char, b: char) -> bool {
    a == b || ((a as u32) < 128 && (b as u32) < 128 && ascii_lower(a) == ascii_lower(b))
}

/// ASCII case carries no meaning: two texts that differ in nothing else have
/// the same folded form.
pub proof fn law_folding_ignores_ascii_case(a: Seq<char>, b: Seq<char>)
    requires
        a.len() == b.len(),
        forall|i: int| 0 <= i < a.len() ==> same_but_case(#[trigger] a[i], b[i]),
    ensures
        folded(a) == folded(b),
    decreases a.len(),
{
    if a.len() > 0 {
        let (x, y) = (a[a.len() - 1], b[b.len() - 1]);
        assert(folded_char(x) == folded_char(y));
        assert forall|i: int| 0 <= i < a.drop_last().len() implies same_but_case(
            #[trigger] a.drop_last()[i],
            b.drop_last()[i],
        ) by {
            assert(same_but_case(a[i], b[i]));
        }
        law_folding_ignores_ascii_case(a.drop_last(), b.drop_last());
    }
}

/// ASCII blanks and punctuation carry no meaning, wherever they stand.
pub proof fn law_folding_drops_ascii_separators(before: Seq<char>, c: char, after: Seq<char>)
    requires
        (c as u32) < 128,
        !ascii_alphanumeric(c),
    ensures
        folded(before.push(c) + after) == folded(before + after),
    decreases after.len(),
{
    if after.len() == 0 {
        assert((before.push(c) + after).drop_last() =~= before);
        assert(before + after =~= before);
        assert(folded(before) + Seq::<char>::empty() =~= folded(before));
    } else {
        let rest = after.drop_last();
        law_folding_drops_ascii_separators(before, c, rest);
        assert((before.push(c) + after).drop_last() =~= before.push(c) + rest);
        assert((before + after).drop_last() =~= before + rest);
    }
}

/// The folded form of a source name or pattern, for identity comparison.
pub fn normalize_for_match(s: &str) -> (r: Vec<char>)
    ensures
        r@ == folded(s@),
{
    let n: usize = s.unicode_len();
    let mut out: Vec<char> = Vec::new();
    let mut i: usize = 0;
    proof {
        assert(s@.take(0).len() == 0);
    }
    while i < n
        invariant
            n == s@.len(),
            i <= n,
            out@ == folded(s@.take(i as int)),
        decreases n - i,
    {
        let c = s.get_char(i);
        proof {
            assert(s@.take(i + 1).drop_last() =~= s@.take(i as int));
            assert(s@.take(i + 1).last() == c);
        }
        if is_alphanumeric(c) {
            let mut low = to_lowercase(c);
            out.append(&mut low);
        } else {
            assert(folded(s@.take(i as int)) + Seq::<char>::empty() =~= folded(s@.take(i as int)));
        }
        i = i + 1;
    }
    proof {
        assert(s@.take(n as int) =~= s@);
    }
    out
}

/// Whether `needle` occurs in `hay` starting at `at`.
pub open spec fn occurs_at(hay: Seq<char>, needle: Seq<char>, at: int) -> bool {
    0 <= at && at + needle.len() <= hay.len() && hay.subrange(at, at + needle.len()) == needle
}

/// Whether `needle` is a substring of `hay`.
pub open spec fn contains_text(hay: Seq<char>, needle: Seq<char>) -> bool {
    exists|at: int| occurs_at(hay, needle, at)
}

/// Whether `needle` is a substring of `hay`.
pub fn contains(hay: &Vec<char>, needle: &Vec<char>) -> (r: bool)
    ensures
        r == contains_text(hay@, needle@),
{
    let n: usize = needle.len();
    if hay.len() < n {
        return false;
    }
    let last: usize = hay.len() - n;
    let mut at: usize = 0;
    while at <= last
        invariant
            n == needle@.len(),
            last + n == hay@.len(),
            hay@.len() <= usize::MAX,
            at <= last + 1,
            forall|k: int| 0 <= k < at ==> !occurs_at(hay@, needle@, k),
        decreases last + 1 - at,
    {
        let mut j: usize = 0;
        while j < n && hay[at + j] == needle[j]
            invariant
                n == needle@.len(),
                last + n == hay@.len(),
                hay@.len() <= usize::MAX,
                at <= last,
                j <= n,
                forall|k: int| 0 <= k < j ==> hay@[at + k] == needle@[k],
            decreases n - j,
        {
            j = j + 1;
        }
        if j == n {
            assert(hay@.subrange(at as int, at + n) =~= needle@);
            assert(occurs_at(hay@, needle@, at as int));
            return true;
        }
        proof {
            if occurs_at(hay@, needle@, at as int) {
                assert(hay@.subrange(at as int, at + n)[j as int] == hay@[at + j]);
            }
        }
        if at == last {
            return false;
        }
        at = at + 1;
    }
    false
}

/// The characters of an optional text.
pub open spec fn optional_text(s: Option<String>) -> Option<Seq<char>> {
    match s {
        Some(t) => Some(t@),
        None => None,
    }
}

/// Whether two texts hold the same characters.
pub fn same_text(a: &str, b: &str) -> (r: bool)
    ensures
        r == (a@ == b@),
{
    let n: usize = a.unicode_len();
    if n != b.unicode_len() {
        return false;
    }
    let mut i: usize = 0;
    while i < n
        invariant
            n == a@.len(),
            n == b@.len(),
            i <= n,
            forall|k: int| 0 <= k < i ==> a@[k] == b@[k],
        decreases n - i,
    {
        if a.get_char(i) != b.get_char(i) {
            return false;
        }
        i = i + 1;
    }
    assert(a@ =~= b@);
    true
}

/// `s` with every trailing copy of the non-empty `suffix` removed.
pub open spec fn without_suffix(s: Seq<char>, suffix: Seq<char>) -> Seq<char>
    decreases s.len(),
{
    if suffix.len() > 0 && suffix.len() <= s.len() && s.skip(s.len() - suffix.len()) == suffix {
        without_suffix(s.take(s.len() - suffix.len()), suffix)
    } else {
        s
    }
}

/// The characters of `s`.
pub fn chars_of(s: &str) -> (r: Vec<char>)
    ensures
        r@ == s@,
{
    let n: usize = s.unicode_len();
    let mut out: Vec<char> = Vec::new();
    let mut i: usize = 0;
    while i < n
        invariant
            n == s@.len(),
            i <= n,
            out@ == s@.take(i as int),
        decreases n - i,
    {
        out.push(s.get_char(i));
        assert(s@.take(i + 1) =~= s@.take(i as int).push(s@[i as int]));
        i = i + 1;
    }
    assert(s@.take(n as int) =~= s@);
    out
}

/// `s` with every trailing copy of `suffix` removed.
pub fn strip_suffix<'a>(s: &'a str, suffix: &str) -> (r: &'a str)
    requires
        suffix@.len() > 0,
    ensures
        r@ == without_suffix(s@, suffix@),
{
    let text = chars_of(s);
    let tail = chars_of(suffix);
    let m: usize = tail.len();
    let mut end: usize = text.len();
    assert(s@.take(end as int) =~= s@);
    while end >= m
        invariant_except_break
            without_suffix(s@, suffix@) == without_suffix(s@.take(end as int), suffix@),
        invariant
            text@ == s@,
            tail@ == suffix@,
            m == tail@.len(),
            m > 0,
            end <= text@.len(),
        ensures
            without_suffix(s@, suffix@) == s@.take(end as int),
            end <= text@.len(),
        decreases end,
    {
        let ghost cur = s@.take(end as int);
        let mut j: usize = 0;
        while j < m && text[end - m + j] == tail[j]
            invariant
                text@ == s@,
                tail@ == suffix@,
                m == tail@.len(),
                m <= end <= text@.len(),
                j <= m,
                forall|k: int| 0 <= k < j ==> text@[end - m + k] == tail@[k],
            decreases m - j,
        {
            j = j + 1;
        }
        if j < m {
            assert(cur.skip(cur.len() - m)[j as int] == text@[end - m + j]);
            break;
        }
        assert(cur.skip(cur.len() - m) =~= suffix@);
        assert(cur.take(cur.len() - m) =~= s@.take(end - m));
        end = end - m;
    }
    assert(s@.subrange(0, end as int) =~= s@.take(end as int));
    s.substring_char(0, end)
}

/// Whether a source matches a pin pattern: both fold to something, and one
/// folded form contains the other.
pub open spec fn pin_matches(source: Seq<char>, pin: Seq<char>) -> bool {
    let s = folded(source);
    let p = folded(pin);
    s.len() > 0 && p.len() > 0 && (contains_text(s, p) || contains_text(p, s))
}

/// Whether a source app matches the pinned-source pattern.
pub fn source_matches_pin(source: &str, pin: &str) -> (r: bool)
    ensures
        r == pin_matches(source@, pin@),
{
    let s = normalize_for_match(source);
    let p = normalize_for_match(pin);
    s.len() > 0 && p.len() > 0 && (contains(&s, &p) || contains(&p, &s))
}

/// Matching a pin does not depend on which side is the pattern.
pub proof fn law_pin_match_is_symmetric(a: Seq<char>, b: Seq<char>)
    ensures
        pin_matches(a, b) == pin_matches(b, a),
{
}

/// A text that folds to something matches itself as a pin.
pub proof fn law_pin_match_is_reflexive(a: Seq<char>)
    requires
        folded(a).len() > 0,
    ensures
        pin_matches(a, a),
{
    let f = folded(a);
    assert(f.subrange(0, f.len() as int) =~= f);
    assert(occurs_at(f, f, 0));
}

/// A side without letters or digits never matches.
pub proof fn law_empty_pin_never_matches(source: Seq<char>, pin: Seq<char>)
    requires
        folded(source).len() == 0 || folded(pin).len() == 0,
    ensures
        !pin_matches(source, pin),
{
}

/// A suffix is taken off as often as it stands at the end, and nothing else
/// is: what stays is the text's beginning and no longer ends in the suffix.
pub proof fn law_suffix_is_taken_off(s: Seq<char>, suffix: Seq<char>)
    requires
        suffix.len() > 0,
    ensures
        without_suffix(s + suffix, suffix) == without_suffix(s, suffix),
        without_suffix(s, suffix).len() <= s.len(),
        without_suffix(s, suffix) == s.take(without_suffix(s, suffix).len() as int),
        suffix.len() <= without_suffix(s, suffix).len() ==> without_suffix(s, suffix).skip(
            without_suffix(s, suffix).len() - suffix.len(),
        ) != suffix,
        s.len() < suffix.len() ==> without_suffix(s, suffix) == s,
        suffix.len() <= s.len() && s.skip(s.len() - suffix.len()) != suffix ==> without_suffix(s, suffix) == s,
    decreases s.len(),
{
    let t = s + suffix;
    assert(t.skip(t.len() - suffix.len()) =~= suffix);
    assert(t.take(t.len() - suffix.len()) =~= s);
    if suffix.len() <= s.len() && s.skip(s.len() - suffix.len()) == suffix {
        let u = s.take(s.len() - suffix.len());
        law_suffix_is_taken_off(u, suffix);
        assert(without_suffix(s, suffix) =~= s.take(without_suffix(s, suffix).len() as int));
    } else {
        assert(s =~= s.take(s.len() as int));
    }
}

/// Trimming cuts off white space and nothing else: the text is its trimmed
/// form between two runs of white space.
pub proof fn law_trimming_cuts_only_outer_space(s: Seq<char>)
    ensures
        exists|from: int, to: int|
            #![trigger s.subrange(from, to)]
            0 <= from <= to <= s.len() && trimmed(s) == s.subrange(from, to) && (forall|i: int|
                0 <= i < from ==> is_space(#[trigger] s[i])) && (forall|i: int|
                to <= i < s.len() ==> is_space(#[trigger] s[i])),
{
    lemma_trailing_end_bound(s);
    lemma_trailing_run(s);
    let to = trailing_end(s) as int;
    let t = s.take(to);
    lemma_leading_space_bound(t);
    lemma_leading_run(t);
    let from = leading_space(t) as int;
    assert(trimmed(s) =~= s.subrange(from, to));
    assert forall|i: int| 0 <= i < from implies is_space(#[trigger] s[i]) by {
        assert(t[i] == s[i]);
    }
}

proof fn lemma_trailing_run(s: Seq<char>)
    ensures
        forall|i: int| trailing_end(s) <= i < s.len() ==> is_space(#[trigger] s[i]),
    decreases s.len(),
{
    if s.len() > 0 && is_space(s.last()) {
        lemma_trailing_run(s.drop_last());
        assert forall|i: int| trailing_end(s) <= i < s.len() implies is_space(#[trigger] s[i]) by {
            if i < s.len() - 1 {
                assert(s.drop_last()[i] == s[i]);
            }
        }
    }
}

proof fn lemma_leading_run(s: Seq<char>)
    ensures
        forall|i: int| 0 <= i < leading_space(s) ==> is_space(#[trigger] s[i]),
    decreases s.len(),
{
    if s.len() > 0 && is_space(s[0]) {
        lemma_leading_run(s.skip(1));
        lemma_leading_space_bound(s);
        assert forall|i: int| 0 <= i < leading_space(s) implies is_space(#[trigger] s[i]) by {
            if i > 0 {
                assert(s.skip(1)[i - 1] == s[i]);
            }
        }
    }
}

/// Of the ASCII characters, the blank and the five controls from tab to
/// carriage return are white space. Beyond them no letter-like range is: what
/// is white space there is the next-line control, the no-break spaces, the
/// ogham mark, the typographic spaces, both separators and the ideographic
/// space.
pub proof fn law_white_space_is_the_unicode_property(c: char)
    ensures
        (c as u32) < 128 ==> (is_space(c) <==> c == ' ' || 9 <= c as u32 <= 13),
        128 <= (c as u32) < 0x1680 ==> (is_space(c) <==> c as u32 == 0x85 || c as u32 == 0xA0),
        0x1680 <= (c as u32) < 0x2000 ==> (is_space(c) <==> c as u32 == 0x1680),
        0x2000 <= c as u32 <= 0x200A ==> is_space(c),
        0x200A < (c as u32) < 0x3000 ==> (is_space(c) <==> c as u32 == 0x2028 || c as u32 == 0x2029 || c as u32
            == 0x202F || c as u32 == 0x205F),
        0x3000 <= c as u32 ==> (is_space(c) <==> c as u32 == 0x3000),
{
}

/// Folding goes character by character: a text in two parts folds part by
/// part, and one character folds to its own form. An ASCII letter folds to its
/// lower-case form and a digit to itself.
pub proof fn law_folding_goes_by_character(a: Seq<char>, b: Seq<char>, c: char)
    ensures
        folded(a + b) == folded(a) + folded(b),
        'a' <= c <= 'z' || '0' <= c <= '9' ==> folded(seq![c]) == seq![c],
        'A' <= c <= 'Z' ==> folded(seq![c]) == seq![((c as u32) + 32) as char],
    decreases b.len(),
{
    let one = seq![c];
    assert(one.drop_last() =~= Seq::<char>::empty());
    assert(one.last() == c);
    assert(folded(one.drop_last()) =~= Seq::<char>::empty());
    assert(folded(one) =~= folded_char(c));
    if b.len() == 0 {
        assert(a + b =~= a);
        assert(folded(a) + folded(b) =~= folded(a));
    } else {
        assert((a + b).drop_last() =~= a + b.drop_last());
        assert((a + b).last() == b.last());
        law_folding_goes_by_character(a, b.drop_last(), c);
        assert(folded(a + b) =~= folded(a) + folded(b));
    }
}

/// A text holds each of its pieces, and nothing that is longer than itself.
pub proof fn law_text_contains_its_pieces(before: Seq<char>, piece: Seq<char>, after: Seq<char>, other: Seq<char>)
    ensures
        contains_text(before + piece + after, piece),
        contains_text(before, piece) ==> exists|at: int|
            0 <= at && at + piece.len() <= before.len() && #[trigger] before.subrange(at, at + piece.len()) == piece,
        other.len() > before.len() ==> !contains_text(before, other),
{
    let hay = before + piece + after;
    let at = before.len() as int;
    assert(hay.subrange(at, at + piece.len()) =~= piece);
    assert(occurs_at(hay, piece, at));
    if contains_text(before, piece) {
        let k = choose|k: int| occurs_at(before, piece, k);
        assert(before.subrange(k, k + piece.len()) == piece);
    }
}

/// A source whose name holds the pin matches it, and so does one whose name
/// the pin holds, whatever stands around it.
pub proof fn law_pin_matches_a_part_of_the_name(before: Seq<char>, pin: Seq<char>, after: Seq<char>)
    requires
        folded(pin).len() > 0,
    ensures
        pin_matches(before + pin + after, pin),
        pin_matches(pin, before + pin + after),
{
    law_folding_goes_by_character(before + pin, after, 'a');
    law_folding_goes_by_character(before, pin, 'a');
    law_text_contains_its_pieces(folded(before), folded(pin), folded(after), folded(pin));
}

/// A source and a pin of which neither holds the other do not match.
pub proof fn law_unrelated_pin_does_not_match(source: Seq<char>, pin: Seq<char>)
    requires
        !contains_text(folded(source), folded(pin)),
        !contains_text(folded(pin), folded(source)),
    ensures
        !pin_matches(source, pin),
{
}

/// A text of nothing but white space, such as an empty one, trims to nothing.
pub proof fn law_blank_text_trims_to_nothing(s: Seq<char>)
    ensures
        (forall|i: int| 0 <= i < s.len() ==> is_space(#[trigger] s[i])) ==> trimmed(s).len() == 0,
        trimmed(s).len() <= s.len(),
{
    law_trimming_cuts_only_outer_space(s);
    law_trimmed_has_no_outer_space(s);
    let (from, to): (int, int) = choose|from: int, to: int|
        #![trigger s.subrange(from, to)]
        0 <= from <= to <= s.len() && trimmed(s) == s.subrange(from, to) && (forall|i: int|
            0 <= i < from ==> is_space(#[trigger] s[i])) && (forall|i: int|
            to <= i < s.len() ==> is_space(#[trigger] s[i]));
    if trimmed(s).len() > 0 {
        assert(trimmed(s)[0] == s[from]);
    }
}

} // verus!
