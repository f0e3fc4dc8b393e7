//! Text helpers on `str` and `String`: Unicode whitespace, trimming,
//! substring search, lowercasing and quote escaping.
use vstd::prelude::*;
use vstd::string::*;

verus! {

/// Whether `c` has the Unicode `White_Space` property (the definition that
/// `char::is_whitespace`, and therefore `str::trim`, goes by).
pub open spec fn is_white_space(c: char) -> bool {
    let u = c as u32;
    ||| (0x09 <= u && u <= 0x0d)
    ||| u == 0x20
    ||| u == 0x85
    ||| u == 0xa0
    ||| u == 0x1680
    ||| (0x2000 <= u && u <= 0x200a)
    ||| u == 0x2028
    ||| u == 0x2029
    ||| u == 0x202f
    ||| u == 0x205f
    ||| u == 0x3000
}

/// `s` without its leading whitespace.
pub open spec fn trim_start_seq(s: Seq<char>) -> Seq<char>
    decreases s.len(),
{
    if s.len() > 0 && is_white_space(s[0]) {
        trim_start_seq(s.drop_first())
    } else {
        s
    }
}

/// `s` without its trailing whitespace.
pub open spec fn trim_end_seq(s: Seq<char>) -> Seq<char>
    decreases s.len(),
{
    if s.len() > 0 && is_white_space(s.last()) {
        trim_end_seq(s.drop_last())
    } else {
        s
    }
}

/// `s` without its leading and trailing whitespace.
pub open spec fn trim_seq(s: Seq<char>) -> Seq<char> {
    trim_end_seq(trim_start_seq(s))
}

/// `pat` occurs in `s` starting at index `i`.
pub open spec fn occurs_at(s: Seq<char>, pat: Seq<char>, i: int) -> bool {
    &&& 0 <= i
    &&& i + pat.len() <= s.len()
    &&& s.subrange(i, i + pat.len()) == pat
}

/// `pat` is a contiguous piece of `s` (the empty pattern is a piece of every text).
pub open spec fn contains_seq(s: Seq<char>, pat: Seq<char>) -> bool {
    exists|i: int| #[trigger] occurs_at(s, pat, i)
}

/// `s` with every double quote preceded by a backslash.
pub open spec fn escape_quotes_seq(s: Seq<char>) -> Seq<char>
    decreases s.len(),
{
    if s.len() == 0 {
        Seq::empty()
    } else if s.last() == '"' {
        escape_quotes_seq(s.drop_last()) + seq!['\\', '"']
    } else {
        escape_quotes_seq(s.drop_last()).push(s.last())
    }
}

/// The lowercase mapping of `s` that `str::to_lowercase` computes from the
/// Unicode case tables.
pub uninterp spec fn lowercase(s: Seq<char>) -> Seq<char>;

/// `char::is_whitespace`: the Unicode `White_Space` property.
pub fn is_whitespace_char(c: char) -> (r: bool)
    ensures
        r == is_white_space(c),
{
    let u = c as u32;
    (0x09 <= u && u <= 0x0d) || u == 0x20 || u == 0x85 || u == 0xa0 || u == 0x1680 || (0x2000
        <= u && u <= 0x200a) || u == 0x2028 || u == 0x2029 || u == 0x202f || u == 0x205f || u
        == 0x3000
}

/// `str::trim`: the text without leading and trailing whitespace.
pub fn trim(s: &str) -> (r: String)
    ensures
        r@ == trim_seq(s@),
{
    let n = s.unicode_len();
    let mut i: usize = 0;
    assert(s@.subrange(0, n as int) =~= s@);
    while i < n && is_whitespace_char(s.get_char(i))
        invariant
            i <= n,
            n == s@.len(),
            trim_start_seq(s@) == trim_start_seq(s@.subrange(i as int, n as int)),
        decreases n - i,
    {
        assert(s@.subrange(i as int, n as int).drop_first() =~= s@.subrange(i + 1, n as int));
        i = i + 1;
    }
    assert(trim_start_seq(s@) == s@.subrange(i as int, n as int));
    let mut j: usize = n;
    while j > i && is_whitespace_char(s.get_char(j - 1))
        invariant
            i <= j <= n,
            n == s@.len(),
            trim_seq(s@) == trim_end_seq(s@.subrange(i as int, j as int)),
        decreases j,
    {
        assert(s@.subrange(i as int, j as int).drop_last() =~= s@.subrange(i as int, j - 1));
        j = j - 1;
    }
    String::from_str(s.substring_char(i, j))
}

/// `str::contains` with a text pattern: whether `pat` occurs in `s`.
pub fn contains(s: &str, pat: &str) -> (r: bool)
    ensures
        r == contains_seq(s@, pat@),
{
    let n = s.unicode_len();
    let m = pat.unicode_len();
    if m > n {
        assert forall|i: int| !occurs_at(s@, pat@, i) by {}
        return false;
    }
    let mut i: usize = 0;
    while i <= n - m
        invariant
            n == s@.len(),
            m == pat@.len(),
            m <= n,
            i <= n - m + 1,
            forall|k: int| 0 <= k < i ==> !#[trigger] occurs_at(s@, pat@, k),
        decreases n - m + 1 - i,
    {
        let mut j: usize = 0;
        let mut same = true;
        while j < m && same
            invariant
                n == s@.len(),
                m == pat@.len(),
                i + m <= n,
                j <= m,
                same ==> forall|k: int| 0 <= k < j ==> s@[i + k] == pat@[k],
                !same ==> j > 0 && s@[i + j - 1] != pat@[j - 1],
            decreases m - j + (if same { 1int } else { 0int }),
        {
            if s.get_char(i + j) != pat.get_char(j) {
                same = false;
            }
            j = j + 1;
        }
        if same {
            assert(s@.subrange(i as int, i + m) =~= pat@);
            assert(occurs_at(s@, pat@, i as int));
            return true;
        }
        assert(s@.subrange(i as int, i + m)[j - 1] != pat@[j - 1]);
        i = i + 1;
    }
    assert forall|k: int| !occurs_at(s@, pat@, k) by {
        if 0 <= k < i {
        }
    }
    false
}

/// Calls `str::to_lowercase`. Trusted, not proved: the result is the text's
/// lowercase mapping `lowercase(s@)`, which depends on the text alone (the
/// mapping itself, Unicode's case tables and the final-sigma rule, is left
/// unstated).
#[verifier::external_body]
pub(crate) fn to_lowercase(s: &str) -> (r: String)
    ensures
        r@ == lowercase(s@),
{
    s.to_lowercase()
}

/// `str::replace('"', "\\\"")`: every double quote gets a backslash before it.
pub fn escape_quotes(s: &str) -> (r: String)
    ensures
        r@ == escape_quotes_seq(s@),
{
    let n = s.unicode_len();
    let mut r = String::new();
    let mut i: usize = 0;
    while i < n
        invariant
            i <= n,
            n == s@.len(),
            r@ == escape_quotes_seq(s@.subrange(0, i as int)),
        decreases n - i,
    {
        let piece = s.substring_char(i, i + 1);
        assert(s@.subrange(0, i + 1).drop_last() =~= s@.subrange(0, i as int));
        if s.get_char(i) == '"' {
            proof {
                reveal_strlit("\\\"");
            }
            r.append("\\\"");
            assert(r@ =~= escape_quotes_seq(s@.subrange(0, i + 1)));
        } else {
            r.append(piece);
            assert(r@ =~= escape_quotes_seq(s@.subrange(0, i + 1)));
        }
        i = i + 1;
    }
    assert(s@.subrange(0, n as int) =~= s@);
    r
}

/// What trimming the start leaves begins with no whitespace.
proof fn lemma_trim_start_head(s: Seq<char>)
    ensures
        trim_start_seq(s).len() == 0 || !is_white_space(trim_start_seq(s)[0]),
    decreases s.len(),
{
    if s.len() > 0 && is_white_space(s[0]) {
        lemma_trim_start_head(s.drop_first());
    }
}

/// Trimming the end keeps a prefix, which ends with no whitespace.
proof fn lemma_trim_end_prefix(s: Seq<char>)
    ensures
        trim_end_seq(s).len() <= s.len(),
        trim_end_seq(s) =~= s.subrange(0, trim_end_seq(s).len() as int),
        trim_end_seq(s).len() == 0 || !is_white_space(trim_end_seq(s).last()),
        forall|k: int| trim_end_seq(s).len() <= k < s.len() ==> is_white_space(#[trigger] s[k]),
    decreases s.len(),
{
    if s.len() > 0 && is_white_space(s.last()) {
        lemma_trim_end_prefix(s.drop_last());
        assert forall|k: int| trim_end_seq(s).len() <= k < s.len() implies is_white_space(
            #[trigger] s[k],
        ) by {
            if k < s.len() - 1 {
                assert(s[k] == s.drop_last()[k]);
            }
        }
        assert(s.drop_last().subrange(0, trim_end_seq(s).len() as int) =~= s.subrange(
            0,
            trim_end_seq(s).len() as int,
        ));
    }
}

/// A trimmed text neither begins nor ends with whitespace.
pub proof fn lemma_trimmed_edges(s: Seq<char>)
    ensures
        trim_seq(s).len() == 0 || !is_white_space(trim_seq(s)[0]),
        trim_seq(s).len() == 0 || !is_white_space(trim_seq(s).last()),
{
    let u = trim_start_seq(s);
    lemma_trim_start_head(s);
    lemma_trim_end_prefix(u);
    if trim_seq(s).len() > 0 {
        assert(trim_seq(s)[0] == u[0]);
    }
}

/// Trimming a trimmed text changes nothing.
pub proof fn lemma_trim_idempotent(s: Seq<char>)
    ensures
        trim_seq(trim_seq(s)) == trim_seq(s),
{
    lemma_trimmed_edges(s);
    let t = trim_seq(s);
    assert(trim_start_seq(t) == t);
    assert(trim_end_seq(t) == t);
}

/// A text without double quotes is left as it is by escaping.
pub proof fn lemma_escape_without_quotes(s: Seq<char>)
    requires
        !s.contains('"'),
    ensures
        escape_quotes_seq(s) == s,
    decreases s.len(),
{
    if s.len() > 0 {
        assert(!s.drop_last().contains('"')) by {
            if s.drop_last().contains('"') {
                let i = choose|i: int| 0 <= i < s.drop_last().len() && s.drop_last()[i] == '"';
                assert(s[i] == '"');
            }
        }
        lemma_escape_without_quotes(s.drop_last());
        assert(s.last() != '"') by {
            assert(s[s.len() - 1] == s.last());
        }
        assert(s.drop_last().push(s.last()) =~= s);
    }
}

/// Escaping adds one backslash for each double quote and changes nothing else:
/// the escaped text is as long as the text plus the number of its quotes.
pub proof fn lemma_escape_length(s: Seq<char>)
    ensures
        escape_quotes_seq(s).len() == s.len() + s.filter(|c: char| c == '"').len(),
    decreases s.len(),
{
    reveal_with_fuel(Seq::<char>::filter, 1);
    if s.len() > 0 {
        lemma_escape_length(s.drop_last());
    }
}

/// Trimming the start drops a run of leading whitespace and keeps the rest.
proof fn lemma_trim_start_suffix(s: Seq<char>)
    ensures
        trim_start_seq(s).len() <= s.len(),
        trim_start_seq(s) =~= s.subrange(s.len() - trim_start_seq(s).len(), s.len() as int),
        forall|k: int|
            0 <= k < s.len() - trim_start_seq(s).len() ==> is_white_space(#[trigger] s[k]),
    decreases s.len(),
{
    if s.len() > 0 && is_white_space(s[0]) {
        let d = s.drop_first();
        lemma_trim_start_suffix(d);
        assert(d.subrange(d.len() - trim_start_seq(d).len(), d.len() as int) =~= s.subrange(
            s.len() - trim_start_seq(s).len(),
            s.len() as int,
        ));
        assert forall|k: int| 0 <= k < s.len() - trim_start_seq(s).len() implies is_white_space(
            #[trigger] s[k],
        ) by {
            if k > 0 {
                assert(s[k] == d[k - 1]);
            }
        }
    }
}

/// Trimming keeps one contiguous piece of the text: everything before it and
/// everything after it is whitespace, and the piece, unless empty, neither
/// begins nor ends with whitespace.
pub proof fn lemma_trim_is_inner_piece(s: Seq<char>)
    ensures
        exists|i: int, j: int|
            {
                &&& 0 <= i <= j <= s.len()
                &&& trim_seq(s) == s.subrange(i, j)
                &&& forall|k: int| 0 <= k < i ==> is_white_space(#[trigger] s[k])
                &&& forall|k: int| j <= k < s.len() ==> is_white_space(#[trigger] s[k])
            },
        trim_seq(s).len() == 0 || (!is_white_space(trim_seq(s)[0]) && !is_white_space(
            trim_seq(s).last(),
        )),
{
    let u = trim_start_seq(s);
    lemma_trim_start_suffix(s);
    lemma_trim_end_prefix(u);
    lemma_trimmed_edges(s);
    let t = trim_seq(s);
    let i = s.len() - u.len();
    let j = i + t.len();
    assert(t =~= s.subrange(i, j));
    assert forall|k: int| j <= k < s.len() implies is_white_space(#[trigger] s[k]) by {
        assert(s[k] == u[k - i]);
    }
}

/// `pat` occurs in any text made of something, then `pat`, then something.
pub proof fn lemma_contains_piece(a: Seq<char>, pat: Seq<char>, b: Seq<char>)
    ensures
        contains_seq(a + pat + b, pat),
{
    assert((a + pat + b).subrange(a.len() as int, (a.len() + pat.len()) as int) =~= pat);
    assert(occurs_at(a + pat + b, pat, a.len() as int));
}

/// A text contains `pat` only when it is made of something, then `pat`, then
/// something.
pub proof fn lemma_contains_splits(s: Seq<char>, pat: Seq<char>)
    requires
        contains_seq(s, pat),
    ensures
        exists|a: Seq<char>, b: Seq<char>| s == a + pat + b,
{
    let i = choose|i: int| #[trigger] occurs_at(s, pat, i);
    let a = s.subrange(0, i);
    let b = s.subrange(i + pat.len(), s.len() as int);
    assert(s =~= a + pat + b);
}

/// Escaping text piece by piece gives the escaping of the whole.
pub proof fn lemma_escape_concat(a: Seq<char>, b: Seq<char>)
    ensures
        escape_quotes_seq(a + b) == escape_quotes_seq(a) + escape_quotes_seq(b),
    decreases b.len(),
{
    if b.len() == 0 {
        assert(a + b =~= a);
        assert(escape_quotes_seq(a) + escape_quotes_seq(b) =~= escape_quotes_seq(a));
    } else {
        assert((a + b).drop_last() =~= a + b.drop_last());
        assert((a + b).last() == b.last());
        lemma_escape_concat(a, b.drop_last());
        if b.last() == '"' {
            assert(escape_quotes_seq(a + b) =~= escape_quotes_seq(a) + escape_quotes_seq(b));
        } else {
            assert(escape_quotes_seq(a + b) =~= escape_quotes_seq(a) + escape_quotes_seq(b));
        }
    }
}

/// Escaping turns a double quote into backslash and quote, and keeps every
/// other character; nothing comes of empty text.
pub proof fn lemma_escape_single(c: char)
    ensures
        escape_quotes_seq(seq![c]) == (if c == '"' {
            seq!['\\', '"']
        } else {
            seq![c]
        }),
        escape_quotes_seq(Seq::<char>::empty()) == Seq::<char>::empty(),
{
    assert(seq![c].drop_last() =~= Seq::<char>::empty());
    assert(seq![c].last() == c);
    assert(escape_quotes_seq(Seq::<char>::empty()) == Seq::<char>::empty());
    assert(Seq::<char>::empty() + seq!['\\', '"'] =~= seq!['\\', '"']);
    assert(Seq::<char>::empty().push(c) =~= seq![c]);
    assert(escape_quotes_seq(seq![c]) =~= (if c == '"' {
        seq!['\\', '"']
    } else {
        seq![c]
    }));
}

/// The whitespace characters are exactly these twenty-five: tab, line feed,
/// vertical tab, form feed, carriage return, space, next line, no-break
/// space, ogham space mark, the eleven spaces U+2000 to U+200A, line and
/// paragraph separators, narrow no-break space, medium mathematical space and
/// ideographic space.
pub proof fn lemma_white_space_characters(c: char)
    ensures
        is_white_space(c) == (c == '\t' || c == '\n' || c == '\u{0b}' || c == '\u{0c}' || c == '\r' || c == ' ' || c == '\u{85}' || c == '\u{a0}' || c == '\u{1680}' || c == '\u{2000}' || c == '\u{2001}' || c == '\u{2002}' || c == '\u{2003}' || c == '\u{2004}' || c == '\u{2005}' || c == '\u{2006}' || c == '\u{2007}' || c == '\u{2008}' || c == '\u{2009}' || c == '\u{200a}' || c == '\u{2028}' || c == '\u{2029}' || c == '\u{202f}' || c == '\u{205f}' || c == '\u{3000}'),
{
}

} // verus!
