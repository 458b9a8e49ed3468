//! Verified character-level text utilities shared by the planner, the
//! instrumenter and the probe-output parsers: trimming, searching,
//! line splitting and substring tests, each against an exact
//! sequence-level specification.
use vstd::prelude::*;

verus! {

/// The whitespace characters recognised by the trimming functions.
pub open spec fn is_space(c: char) -> bool {
    c == ' ' || c == '\t' || c == '\r' || c == '\n' || c == '\u{b}' || c == '\u{c}'
}

/// Index of the first occurrence of `c`, or `s.len()` if `c` is absent.
pub open spec fn first_char_index(s: Seq<char>, c: char) -> int
    decreases s.len(),
{
    if s.len() == 0 {
        0
    } else if s[0] == c {
        0
    } else {
        1 + first_char_index(s.skip(1), c)
    }
}

pub proof fn lemma_first_char_index(s: Seq<char>, c: char)
    ensures
        0 <= first_char_index(s, c) <= s.len(),
        forall|k: int| 0 <= k < first_char_index(s, c) ==> s[k] != c,
        first_char_index(s, c) < s.len() ==> s[first_char_index(s, c)] == c,
    decreases s.len(),
{
    if s.len() > 0 && s[0] != c {
        lemma_first_char_index(s.skip(1), c);
        assert forall|k: int| 0 <= k < first_char_index(s, c) implies s[k] != c by {
            if k >= 1 {
                assert(s.skip(1)[k - 1] == s[k]);
            }
        }
    }
}

/// Remove the longest whitespace prefix.
pub open spec fn trim_front_spec(s: Seq<char>) -> Seq<char>
    decreases s.len(),
{
    if s.len() > 0 && is_space(s[0]) {
        trim_front_spec(s.skip(1))
    } else {
        s
    }
}

/// Remove the longest whitespace suffix.
pub open spec fn trim_back_spec(s: Seq<char>) -> Seq<char>
    decreases s.len(),
{
    if s.len() > 0 && is_space(s[s.len() - 1]) {
        trim_back_spec(s.drop_last())
    } else {
        s
    }
}

/// Whitespace trimmed from both ends.
pub open spec fn trim_spec(s: Seq<char>) -> Seq<char> {
    trim_back_spec(trim_front_spec(s))
}

/// Remove the longest prefix made of the character `c`.
pub open spec fn strip_front_spec(s: Seq<char>, c: char) -> Seq<char>
    decreases s.len(),
{
    if s.len() > 0 && s[0] == c {
        strip_front_spec(s.skip(1), c)
    } else {
        s
    }
}

/// Remove the longest suffix made of the character `c`.
pub open spec fn strip_back_spec(s: Seq<char>, c: char) -> Seq<char>
    decreases s.len(),
{
    if s.len() > 0 && s[s.len() - 1] == c {
        strip_back_spec(s.drop_last(), c)
    } else {
        s
    }
}

/// All copies of one character stripped from both ends.
pub open spec fn strip_char_spec(s: Seq<char>, c: char) -> Seq<char> {
    strip_back_spec(strip_front_spec(s, c), c)
}

pub proof fn lemma_trim_front_is_skip(s: Seq<char>, i: int)
    requires
        0 <= i <= s.len(),
        forall|k: int| 0 <= k < i ==> is_space(s[k]),
        i < s.len() ==> !is_space(s[i]),
    ensures
        trim_front_spec(s) == s.skip(i),
    decreases i,
{
    if i == 0 {
        assert(s.skip(0) =~= s);
    } else {
        let t = s.skip(1);
        assert(forall|k: int| 0 <= k < t.len() ==> t[k] == s[k + 1]);
        lemma_trim_front_is_skip(t, i - 1);
        assert(t.skip(i - 1) =~= s.skip(i));
    }
}

pub proof fn lemma_trim_back_is_take(s: Seq<char>, j: int)
    requires
        0 <= j <= s.len(),
        forall|k: int| j <= k < s.len() ==> is_space(s[k]),
        j > 0 ==> !is_space(s[j - 1]),
    ensures
        trim_back_spec(s) == s.take(j),
    decreases s.len(),
{
    if j == s.len() {
        assert(s.take(j) =~= s);
    } else {
        let t = s.drop_last();
        assert(forall|k: int| 0 <= k < t.len() ==> t[k] == s[k]);
        lemma_trim_back_is_take(t, j);
        assert(t.take(j) =~= s.take(j));
    }
}

pub proof fn lemma_strip_front_is_skip(s: Seq<char>, c: char, i: int)
    requires
        0 <= i <= s.len(),
        forall|k: int| 0 <= k < i ==> s[k] == c,
        i < s.len() ==> s[i] != c,
    ensures
        strip_front_spec(s, c) == s.skip(i),
    decreases i,
{
    if i == 0 {
        assert(s.skip(0) =~= s);
    } else {
        let t = s.skip(1);
        assert(forall|k: int| 0 <= k < t.len() ==> t[k] == s[k + 1]);
        lemma_strip_front_is_skip(t, c, i - 1);
        assert(t.skip(i - 1) =~= s.skip(i));
    }
}

pub proof fn lemma_strip_back_is_take(s: Seq<char>, c: char, j: int)
    requires
        0 <= j <= s.len(),
        forall|k: int| j <= k < s.len() ==> s[k] == c,
        j > 0 ==> s[j - 1] != c,
    ensures
        strip_back_spec(s, c) == s.take(j),
    decreases s.len(),
{
    if j == s.len() {
        assert(s.take(j) =~= s);
    } else {
        let t = s.drop_last();
        assert(forall|k: int| 0 <= k < t.len() ==> t[k] == s[k]);
        lemma_strip_back_is_take(t, c, j);
        assert(t.take(j) =~= s.take(j));
    }
}

pub fn is_space_char(c: char) -> (r: bool)
    ensures
        r == is_space(c),
{
    c == ' ' || c == '\t' || c == '\r' || c == '\n' || c == '\u{b}' || c == '\u{c}'
}

/// Whitespace trimmed from both ends of a string slice.
pub fn trim_str<'a>(s: &'a str) -> (r: &'a str)
    ensures
        r@ == trim_spec(s@),
{
    let n = s.unicode_len();
    let mut i: usize = 0;
    while i < n && is_space_char(s.get_char(i))
        invariant
            0 <= i <= n,
            n == s@.len(),
            forall|k: int| 0 <= k < i ==> is_space(s@[k]),
        decreases n - i,
    {
        i = i + 1;
    }
    let mut j: usize = n;
    while j > i && is_space_char(s.get_char(j - 1))
        invariant
            i <= j <= n,
            n == s@.len(),
            forall|k: int| j <= k < n ==> is_space(s@[k]),
        decreases j,
    {
        j = j - 1;
    }
    proof {
        lemma_trim_front_is_skip(s@, i as int);
        let t = s@.skip(i as int);
        assert(forall|k: int| 0 <= k < t.len() ==> t[k] == s@[k + i]);
        lemma_trim_back_is_take(t, j - i);
        assert(t.take(j - i) =~= s@.subrange(i as int, j as int));
    }
    s.substring_char(i, j)
}

/// All copies of `c` stripped from both ends of a string slice.
pub fn strip_char_str<'a>(s: &'a str, c: char) -> (r: &'a str)
    ensures
        r@ == strip_char_spec(s@, c),
{
    let n = s.unicode_len();
    let mut i: usize = 0;
    while i < n && s.get_char(i) == c
        invariant
            0 <= i <= n,
            n == s@.len(),
            forall|k: int| 0 <= k < i ==> s@[k] == c,
        decreases n - i,
    {
        i = i + 1;
    }
    let mut j: usize = n;
    while j > i && s.get_char(j - 1) == c
        invariant
            i <= j <= n,
            n == s@.len(),
            forall|k: int| j <= k < n ==> s@[k] == c,
        decreases j,
    {
        j = j - 1;
    }
    proof {
        lemma_strip_front_is_skip(s@, c, i as int);
        let t = s@.skip(i as int);
        assert(forall|k: int| 0 <= k < t.len() ==> t[k] == s@[k + i]);
        lemma_strip_back_is_take(t, c, j - i);
        assert(t.take(j - i) =~= s@.subrange(i as int, j as int));
    }
    s.substring_char(i, j)
}

/// A final carriage return removed, as the line splitter does for
/// lines ended by a carriage return and line feed pair.
pub open spec fn strip_trailing_cr(l: Seq<char>) -> Seq<char> {
    if l.len() > 0 && l[l.len() - 1] == '\r' {
        l.drop_last()
    } else {
        l
    }
}

/// The lines of `s`: pieces between line feeds, a carriage return
/// before a line feed removed, and no final empty piece.
pub open spec fn split_lines_spec(s: Seq<char>) -> Seq<Seq<char>>
    decreases s.len(),
    via split_lines_spec_dec
{
    if s.len() == 0 {
        Seq::empty()
    } else {
        let f = first_char_index(s, '\n');
        if f == s.len() {
            seq![s]
        } else {
            seq![strip_trailing_cr(s.take(f))] + split_lines_spec(s.skip(f + 1))
        }
    }
}

#[via_fn]
proof fn split_lines_spec_dec(s: Seq<char>) {
    if s.len() > 0 {
        lemma_first_char_index(s, '\n');
    }
}

/// The lines of a string slice.
pub fn split_lines(s: &str) -> (r: Vec<String>)
    ensures
        r.deep_view() == split_lines_spec(s@),
{
    let n = s.unicode_len();
    let mut out: Vec<String> = Vec::new();
    let mut i: usize = 0;
    proof {
        assert(s@.skip(0) =~= s@);
        assert(out.deep_view() + split_lines_spec(s@) =~= split_lines_spec(s@));
    }
    while i < n
        invariant
            0 <= i <= n,
            n == s@.len(),
            split_lines_spec(s@) == out.deep_view() + split_lines_spec(s@.skip(i as int)),
        decreases n - i,
    {
        let ghost prev_dv = out.deep_view();
        let ghost t = s@.skip(i as int);
        let j = find_char_from(s, i, '\n');
        proof {
            lemma_first_char_index(t, '\n');
            assert(forall|k: int| 0 <= k < t.len() ==> t[k] == s@[k + i]);
            let f = first_char_index(t, '\n');
            // the scan and the spec agree on the first line feed
            assert(f == j - i) by {
                if f < j - i {
                    assert(t[f] == '\n');
                    assert(s@[f + i] == '\n');
                } else if f > j - i {
                    if j < n {
                        assert(t[j - i] == '\n');
                    }
                }
            }
        }
        if j < n {
            let line = if j > i && s.get_char(j - 1) == '\r' {
                s.substring_char(i, j - 1)
            } else {
                s.substring_char(i, j)
            };
            proof {
                assert(t.take(j - i) =~= s@.subrange(i as int, j as int));
                if j > i && s@[j - 1] == '\r' {
                    assert(strip_trailing_cr(t.take(j - i)) =~= s@.subrange(i as int, j - 1));
                } else {
                    assert(strip_trailing_cr(t.take(j - i)) =~= s@.subrange(i as int, j as int));
                }
            }
            out.push(line.to_owned());
            proof {
                assert(split_lines_spec(t) == seq![strip_trailing_cr(t.take(j - i))]
                    + split_lines_spec(t.skip(j - i + 1)));
                assert(t.skip(j - i + 1) =~= s@.skip(j + 1));
                assert(out.deep_view() =~= prev_dv.push(strip_trailing_cr(t.take(j - i))));
                assert(prev_dv + split_lines_spec(t) =~= out.deep_view() + split_lines_spec(
                    s@.skip(j + 1),
                ));
            }
            i = j + 1;
        } else {
            let line = s.substring_char(i, n);
            proof {
                assert(split_lines_spec(t) == seq![t]);
                assert(t =~= s@.subrange(i as int, n as int));
            }
            out.push(line.to_owned());
            proof {
                assert(out.deep_view() =~= prev_dv.push(t));
                assert(prev_dv + split_lines_spec(t) =~= out.deep_view() + split_lines_spec(
                    s@.skip(n as int),
                ));
            }
            i = n;
        }
    }
    proof {
        assert(s@.skip(n as int) =~= Seq::<char>::empty());
        assert(out.deep_view() + split_lines_spec(Seq::<char>::empty()) =~= out.deep_view());
    }
    out
}

/// `needle` occurs in `hay` starting at position `i`.
pub open spec fn matches_at(hay: Seq<char>, needle: Seq<char>, i: int) -> bool {
    &&& 0 <= i
    &&& i + needle.len() <= hay.len()
    &&& forall|j: int| 0 <= j < needle.len() ==> hay[i + j] == needle[j]
}

/// `needle` occurs somewhere in `hay`.
pub open spec fn contains_sub(hay: Seq<char>, needle: Seq<char>) -> bool {
    exists|i: int| matches_at(hay, needle, i)
}

pub open spec fn starts_with_spec(s: Seq<char>, prefix: Seq<char>) -> bool {
    matches_at(s, prefix, 0)
}

pub open spec fn ends_with_spec(s: Seq<char>, suffix: Seq<char>) -> bool {
    s.len() >= suffix.len() && matches_at(s, suffix, s.len() - suffix.len())
}

/// Compare `needle` against `hay` at position `i`.
pub fn matches_at_exec(hay: &str, needle: &str, i: usize) -> (r: bool)
    requires
        i + needle@.len() <= hay@.len(),
    ensures
        r == matches_at(hay@, needle@, i as int),
{
    let hn = hay.unicode_len();
    let nn = needle.unicode_len();
    let mut j: usize = 0;
    while j < nn
        invariant
            0 <= j <= nn,
            nn == needle@.len(),
            hn == hay@.len(),
            i + nn <= hay@.len(),
            forall|k: int| 0 <= k < j ==> hay@[i + k] == needle@[k],
        decreases nn - j,
    {
        if hay.get_char(i + j) != needle.get_char(j) {
            return false;
        }
        j = j + 1;
    }
    true
}

/// Substring test against `contains_sub`.
pub fn contains_str(hay: &str, needle: &str) -> (r: bool)
    ensures
        r == contains_sub(hay@, needle@),
{
    let hn = hay.unicode_len();
    let nn = needle.unicode_len();
    if nn > hn {
        return false;
    }
    let mut i: usize = 0;
    while i <= hn - nn
        invariant
            0 <= i <= hn - nn + 1,
            nn <= hn,
            hn == hay@.len(),
            nn == needle@.len(),
            forall|k: int| 0 <= k < i ==> !matches_at(hay@, needle@, k),
        decreases hn - nn - i + 1,
    {
        if matches_at_exec(hay, needle, i) {
            return true;
        }
        i = i + 1;
    }
    false
}

/// Prefix test against `starts_with_spec`.
pub fn starts_with_str(s: &str, prefix: &str) -> (r: bool)
    ensures
        r == starts_with_spec(s@, prefix@),
{
    let n = s.unicode_len();
    let pn = prefix.unicode_len();
    if pn > n {
        return false;
    }
    matches_at_exec(s, prefix, 0)
}

/// Suffix test against `ends_with_spec`.
pub fn ends_with_str(s: &str, suffix: &str) -> (r: bool)
    ensures
        r == ends_with_spec(s@, suffix@),
{
    let n = s.unicode_len();
    let sn = suffix.unicode_len();
    if sn > n {
        return false;
    }
    matches_at_exec(s, suffix, n - sn)
}

/// Every occurrence of `pat` replaced by `rep`, scanning left to
/// right without overlap; the input unchanged when `pat` is empty.
pub open spec fn replace_all_spec(s: Seq<char>, pat: Seq<char>, rep: Seq<char>) -> Seq<char>
    decreases s.len(),
{
    if pat.len() == 0 || s.len() < pat.len() {
        s
    } else if matches_at(s, pat, 0) {
        rep + replace_all_spec(s.skip(pat.len() as int), pat, rep)
    } else {
        seq![s[0]] + replace_all_spec(s.skip(1), pat, rep)
    }
}

/// Replacement of every occurrence, against `replace_all_spec`.
pub fn replace_all(s: &str, pat: &str, rep: &str) -> (r: String)
    ensures
        r@ == replace_all_spec(s@, pat@, rep@),
{
    let n = s.unicode_len();
    let pn = pat.unicode_len();
    if pn == 0 {
        return s.to_owned();
    }
    let mut out = String::new();
    let mut i: usize = 0;
    proof {
        assert(s@.skip(0) =~= s@);
        assert(out@ + replace_all_spec(s@, pat@, rep@) =~= replace_all_spec(s@, pat@, rep@));
    }
    while i < n
        invariant
            0 <= i <= n,
            n == s@.len(),
            pn == pat@.len(),
            pn > 0,
            out@ + replace_all_spec(s@.skip(i as int), pat@, rep@) == replace_all_spec(
                s@,
                pat@,
                rep@,
            ),
        decreases n - i,
    {
        let ghost t = s@.skip(i as int);
        let ghost prev = out@;
        proof {
            assert(forall|k: int| 0 <= k < t.len() ==> t[k] == s@[k + i]);
        }
        if n - i >= pn && matches_at_exec(s, pat, i) {
            out.append(rep);
            proof {
                assert(matches_at(t, pat@, 0));
                assert(replace_all_spec(t, pat@, rep@) == rep@ + replace_all_spec(
                    t.skip(pn as int),
                    pat@,
                    rep@,
                ));
                assert(t.skip(pn as int) =~= s@.skip(i + pn));
                assert(prev + (rep@ + replace_all_spec(s@.skip(i + pn), pat@, rep@)) =~= out@
                    + replace_all_spec(s@.skip(i + pn), pat@, rep@));
            }
            i = i + pn;
        } else {
            let piece = s.substring_char(i, i + 1);
            out.append(piece);
            proof {
                assert(piece@ =~= seq![s@[i as int]]);
                if t.len() >= pn {
                    assert(!matches_at(s@, pat@, i as int));
                    assert(!matches_at(t, pat@, 0)) by {
                        if matches_at(t, pat@, 0) {
                            assert(forall|j: int|
                                0 <= j < pn ==> s@[i + j] == #[trigger] pat@[j]);
                        }
                    }
                    assert(replace_all_spec(t, pat@, rep@) == seq![t[0]] + replace_all_spec(
                        t.skip(1),
                        pat@,
                        rep@,
                    ));
                } else {
                    // too little input is left for a match: both sides copy it
                    assert(replace_all_spec(t, pat@, rep@) == t);
                    assert(t.skip(1).len() < pn);
                    assert(replace_all_spec(t.skip(1), pat@, rep@) == t.skip(1));
                    assert(t =~= seq![t[0]] + t.skip(1));
                }
                assert(t.skip(1) =~= s@.skip(i + 1));
                assert(t[0] == s@[i as int]);
                assert(prev + (seq![s@[i as int]] + replace_all_spec(s@.skip(i + 1), pat@, rep@))
                    =~= out@ + replace_all_spec(s@.skip(i + 1), pat@, rep@));
            }
            i = i + 1;
        }
    }
    proof {
        assert(s@.skip(n as int) =~= Seq::<char>::empty());
        assert(replace_all_spec(Seq::<char>::empty(), pat@, rep@) == Seq::<char>::empty());
        assert(out@ + Seq::<char>::empty() =~= out@);
    }
    out
}

/// An upper-case basic letter mapped to its lower-case form.
pub open spec fn lower_char_spec(c: char) -> char {
    if 65 <= c as u32 && c as u32 <= 90 {
        ((c as u32 + 32) as u8) as char
    } else {
        c
    }
}

pub open spec fn eq_ignore_case_spec(a: Seq<char>, b: Seq<char>) -> bool {
    a.len() == b.len() && forall|i: int|
        0 <= i < a.len() ==> lower_char_spec(a[i]) == lower_char_spec(b[i])
}

pub fn lower_char(c: char) -> (r: char)
    ensures
        r == lower_char_spec(c),
{
    let u = c as u32;
    if 65 <= u && u <= 90 {
        ((c as u8) + 32) as char
    } else {
        c
    }
}

/// Letter-case-insensitive equality of two strings.
pub fn eq_ignore_ascii_case_str(a: &str, b: &str) -> (r: bool)
    ensures
        r == eq_ignore_case_spec(a@, b@),
{
    let an = a.unicode_len();
    let bn = b.unicode_len();
    if an != bn {
        return false;
    }
    let mut i: usize = 0;
    while i < an
        invariant
            0 <= i <= an,
            an == a@.len(),
            an == b@.len(),
            forall|k: int| 0 <= k < i ==> lower_char_spec(a@[k]) == lower_char_spec(b@[k]),
        decreases an - i,
    {
        if lower_char(a.get_char(i)) != lower_char(b.get_char(i)) {
            return false;
        }
        i = i + 1;
    }
    true
}

/// Character-for-character equality of two string slices.
pub fn str_eq(a: &str, b: &str) -> (r: bool)
    ensures
        r == (a@ == b@),
{
    let an = a.unicode_len();
    let bn = b.unicode_len();
    if an != bn {
        proof {
            assert(a@ != b@);
        }
        return false;
    }
    let mut i: usize = 0;
    while i < an
        invariant
            0 <= i <= an,
            an == a@.len(),
            an == b@.len(),
            forall|k: int| 0 <= k < i ==> a@[k] == b@[k],
        decreases an - i,
    {
        if a.get_char(i) != b.get_char(i) {
            return false;
        }
        i = i + 1;
    }
    proof {
        assert(a@ =~= b@);
    }
    true
}

/// The pieces joined with one separator between neighbours.
pub open spec fn join_spec(parts: Seq<Seq<char>>, sep: Seq<char>) -> Seq<char>
    decreases parts.len(),
{
    if parts.len() == 0 {
        Seq::empty()
    } else if parts.len() == 1 {
        parts[0]
    } else {
        join_spec(parts.drop_last(), sep) + sep + parts.last()
    }
}

/// Join string pieces with a separator, against `join_spec`.
pub fn join_strs(parts: &Vec<String>, sep: &str) -> (r: String)
    ensures
        r@ == join_spec(parts.deep_view(), sep@),
{
    let mut out = String::new();
    let mut i: usize = 0;
    proof {
        assert(parts.deep_view().take(0) =~= Seq::<Seq<char>>::empty());
    }
    while i < parts.len()
        invariant
            0 <= i <= parts.len(),
            out@ == join_spec(parts.deep_view().take(i as int), sep@),
        decreases parts.len() - i,
    {
        if i > 0 {
            out.append(sep);
        }
        out.append(parts[i].as_str());
        proof {
            let dv = parts.deep_view();
            assert(dv.take(i + 1).drop_last() =~= dv.take(i as int));
            assert(dv.take(i + 1).last() == dv[i as int]);
            assert(dv[i as int] == parts@[i as int]@);
        }
        i = i + 1;
    }
    proof {
        assert(parts.deep_view().take(parts@.len() as int) =~= parts.deep_view());
    }
    out
}

/// First position of `c` in `s` at or after `from`, or the length if absent.
pub fn find_char_from(s: &str, from: usize, c: char) -> (j: usize)
    requires
        from <= s@.len(),
    ensures
        from <= j <= s@.len(),
        forall|k: int| from <= k < j ==> s@[k] != c,
        j < s@.len() ==> s@[j as int] == c,
{
    let n = s.unicode_len();
    let mut j: usize = from;
    while j < n && s.get_char(j) != c
        invariant
            from <= j <= n,
            n == s@.len(),
            forall|k: int| from <= k < j ==> s@[k] != c,
        decreases n - j,
    {
        j = j + 1;
    }
    j
}

} // verus!
