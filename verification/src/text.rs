//! Character-level helpers shared by the parsers of this crate.
//!
//! Strings cross the public interface as `&str` and `String`; inside, the
//! parsers work on `Vec<char>` so that every position can be reasoned about
//! through the `Seq<char>` view.

use vstd::prelude::*;

verus! {

/// Whether `c` has the Unicode property `White_Space`, as `char::is_whitespace` decides it.
pub uninterp spec fn char_is_whitespace(c: char) -> bool;

/// Whether `c` is in one of the Unicode number categories, as `char::is_numeric` decides it.
pub uninterp spec fn char_is_numeric(c: char) -> bool;

/// Whether `c` has the Unicode property `Alphabetic`, as `char::is_alphabetic` decides it.
pub uninterp spec fn char_is_alphabetic(c: char) -> bool;

/// The lowercase form of a text, as `str::to_lowercase` computes it.
pub uninterp spec fn lowercase(s: Seq<char>) -> Seq<char>;

/// `char::is_whitespace` is a fixed property of the character.
pub assume_specification[ char::is_whitespace ](c: char) -> (b: bool)
    ensures
        b == char_is_whitespace(c),
;

/// `char::is_numeric` is a fixed property of the character.
pub assume_specification[ char::is_numeric ](c: char) -> (b: bool)
    ensures
        b == char_is_numeric(c),
;

/// `char::is_alphabetic` is a fixed property of the character.
pub assume_specification[ char::is_alphabetic ](c: char) -> (b: bool)
    ensures
        b == char_is_alphabetic(c),
;

/// `str::to_lowercase` depends on the characters of its argument alone.
pub assume_specification[ str::to_lowercase ](s: &str) -> (r: std::string::String)
    ensures
        r@ == lowercase(s@),
;

/// `String::push` appends one character at the end of the string.
pub assume_specification[ std::string::String::push ](s: &mut std::string::String, ch: char)
    ensures
        final(s)@ == old(s)@.push(ch),
;

/// The texts held by a vector of character vectors.
pub open spec fn rows(v: Seq<Vec<char>>) -> Seq<Seq<char>> {
    v.map_values(|r: Vec<char>| r@)
}

/// The texts held by a vector of strings.
pub open spec fn texts(v: Seq<String>) -> Seq<Seq<char>> {
    v.map_values(|s: String| s@)
}

/// The texts of a vector with one more row.
pub proof fn lemma_rows_push(v: Seq<Vec<char>>, r: Vec<char>)
    ensures
        rows(v.push(r)) == rows(v).push(r@),
{
    assert(rows(v.push(r)) =~= rows(v).push(r@));
}

/// The texts of a vector with one more string.
pub proof fn lemma_texts_push(v: Seq<String>, s: String)
    ensures
        texts(v.push(s)) == texts(v).push(s@),
{
    assert(texts(v.push(s)) =~= texts(v).push(s@));
}

/// The characters of `s`, in order.
pub fn chars_of(s: &str) -> (v: Vec<char>)
    ensures
        v@ == s@,
{
    let mut v: Vec<char> = Vec::new();
    for c in it: s.chars()
        invariant
            it.seq() == s@,
            v@ == s@.subrange(0, it.index()),
    {
        v.push(c);
    }
    v
}

/// The string made of the characters of `v`.
pub fn string_of(v: &Vec<char>) -> (s: String)
    ensures
        s@ == v@,
{
    let mut s = String::new();
    let mut i: usize = 0;
    while i < v.len()
        invariant
            i <= v.len(),
            s@ == v@.subrange(0, i as int),
        decreases v.len() - i,
    {
        s.push(v[i]);
        i = i + 1;
    }
    assert(v@.subrange(0, v.len() as int) =~= v@);
    s
}

/// A copy of `v[from..to]`.
pub fn slice_of(v: &Vec<char>, from: usize, to: usize) -> (r: Vec<char>)
    requires
        from <= to <= v.len(),
    ensures
        r@ == v@.subrange(from as int, to as int),
{
    let mut r: Vec<char> = Vec::new();
    let mut i: usize = from;
    while i < to
        invariant
            from <= i <= to <= v.len(),
            r@ == v@.subrange(from as int, i as int),
        decreases to - i,
    {
        r.push(v[i]);
        i = i + 1;
    }
    r
}

/// Whether two character vectors hold the same text.
pub fn same_chars(a: &Vec<char>, b: &Vec<char>) -> (r: bool)
    ensures
        r == (a@ == b@),
{
    if a.len() != b.len() {
        return false;
    }
    let mut i: usize = 0;
    while i < a.len()
        invariant
            a.len() == b.len(),
            i <= a.len(),
            a@.subrange(0, i as int) == b@.subrange(0, i as int),
        decreases a.len() - i,
    {
        if a[i] != b[i] {
            return false;
        }
        assert(a@.subrange(0, i + 1) =~= a@.subrange(0, i as int).push(a@[i as int]));
        assert(b@.subrange(0, i + 1) =~= b@.subrange(0, i as int).push(b@[i as int]));
        i = i + 1;
    }
    assert(a@.subrange(0, a.len() as int) =~= a@);
    assert(b@.subrange(0, b.len() as int) =~= b@);
    true
}

/// Whether `v` holds exactly the text `lit`.
pub fn is_text(v: &Vec<char>, lit: &str) -> (r: bool)
    ensures
        r == (v@ == lit@),
{
    let w = chars_of(lit);
    same_chars(v, &w)
}

/// Whether two strings hold the same text.
pub fn str_equal(a: &str, b: &str) -> (r: bool)
    ensures
        r == (a@ == b@),
{
    let x = chars_of(a);
    let y = chars_of(b);
    same_chars(&x, &y)
}

/// `pat` stands in `s` at position `i`.
pub open spec fn occurs_at(s: Seq<char>, pat: Seq<char>, i: int) -> bool {
    0 <= i && i + pat.len() <= s.len() && s.subrange(i, i + pat.len()) == pat
}

/// Whether `pat` stands in `v` at position `i`.
pub fn occurs_at_exec(v: &Vec<char>, pat: &Vec<char>, i: usize) -> (r: bool)
    ensures
        r == occurs_at(v@, pat@, i as int),
{
    let n = v.len();
    let m = pat.len();
    if i > n || m > n - i {
        return false;
    }
    let mut k: usize = 0;
    while k < m
        invariant
            n == v.len(),
            m == pat.len(),
            i + m <= n,
            k <= m,
            forall|j: int| 0 <= j < k ==> v@[i + j] == pat@[j],
        decreases m - k,
    {
        if v[i + k] != pat[k] {
            assert(v@.subrange(i as int, i + m)[k as int] != pat@[k as int]);
            return false;
        }
        k = k + 1;
    }
    assert(v@.subrange(i as int, i + m) =~= pat@);
    true
}

/// Whether `pat` occurs somewhere in `s`.
pub open spec fn contains_text(s: Seq<char>, pat: Seq<char>) -> bool {
    exists|i: int| occurs_at(s, pat, i)
}

/// Whether `pat` occurs somewhere in `v`.
pub fn contains_exec(v: &Vec<char>, pat: &Vec<char>) -> (r: bool)
    ensures
        r == contains_text(v@, pat@),
{
    let n = v.len();
    let m = pat.len();
    if m > n {
        return false;
    }
    let last = n - m;
    let mut i: usize = 0;
    while i < last
        invariant
            n == v.len(),
            m == pat.len(),
            last == n - m,
            i <= last,
            forall|j: int| 0 <= j < i ==> !occurs_at(v@, pat@, j),
        decreases last - i,
    {
        if occurs_at_exec(v, pat, i) {
            return true;
        }
        i = i + 1;
    }
    occurs_at_exec(v, pat, last)
}

/// Whether `s` ends with `pat`.
pub open spec fn ends_with(s: Seq<char>, pat: Seq<char>) -> bool {
    occurs_at(s, pat, s.len() - pat.len())
}

/// Whether `v` ends with `pat`.
pub fn ends_with_exec(v: &Vec<char>, pat: &Vec<char>) -> (r: bool)
    ensures
        r == ends_with(v@, pat@),
{
    if pat.len() > v.len() {
        return false;
    }
    occurs_at_exec(v, pat, v.len() - pat.len())
}

/// The position of the first `c` in `s` at or after `i`, or the length of `s`
/// where there is none.
pub open spec fn index_from(s: Seq<char>, c: char, i: int) -> int
    decreases s.len() - i,
{
    if i < 0 || i >= s.len() {
        s.len() as int
    } else if s[i] == c {
        i
    } else {
        index_from(s, c, i + 1)
    }
}

/// The position of the first `c` in `s`, if there is one.
pub open spec fn find_char(s: Seq<char>, c: char) -> Option<int> {
    if index_from(s, c, 0) < s.len() {
        Some(index_from(s, c, 0))
    } else {
        None
    }
}

/// What `index_from` finds is the first occurrence.
pub proof fn lemma_index_from(s: Seq<char>, c: char, i: int)
    requires
        0 <= i <= s.len(),
    ensures
        i <= index_from(s, c, i) <= s.len(),
        index_from(s, c, i) < s.len() ==> s[index_from(s, c, i)] == c,
        forall|j: int| i <= j < index_from(s, c, i) ==> s[j] != c,
    decreases s.len() - i,
{
    if i < s.len() && s[i] != c {
        lemma_index_from(s, c, i + 1);
    }
}

/// The position of the first `c` in `v`.
pub fn find_char_exec(v: &Vec<char>, c: char) -> (r: Option<usize>)
    ensures
        match r {
            Some(i) => find_char(v@, c) == Some(i as int) && i < v.len(),
            None => find_char(v@, c).is_none(),
        },
        r.is_some() == v@.contains(c),
{
    let mut i: usize = 0;
    while i < v.len()
        invariant
            i <= v.len(),
            index_from(v@, c, 0) == index_from(v@, c, i as int),
        decreases v.len() - i,
    {
        if v[i] == c {
            proof {
                lemma_index_from(v@, c, 0);
            }
            return Some(i);
        }
        i = i + 1;
    }
    proof {
        lemma_index_from(v@, c, 0);
    }
    None
}

/// The text before and the text after the first `c`, if `s` holds one.
pub open spec fn split_once(s: Seq<char>, c: char) -> Option<(Seq<char>, Seq<char>)> {
    match find_char(s, c) {
        Some(i) => Some((s.subrange(0, i), s.subrange(i + 1, s.len() as int))),
        None => None,
    }
}

/// The text before and the text after the first `c` of `v`.
pub fn split_once_exec(v: &Vec<char>, c: char) -> (r: Option<(Vec<char>, Vec<char>)>)
    ensures
        match r {
            Some(p) => split_once(v@, c) == Some((p.0@, p.1@)),
            None => split_once(v@, c).is_none(),
        },
{
    match find_char_exec(v, c) {
        Some(i) => Some((slice_of(v, 0, i), slice_of(v, i + 1, v.len()))),
        None => None,
    }
}

/// The pieces of `s` from `start` on, where `i` is the next position at which
/// a separator may begin. Separators are taken leftmost and do not overlap.
pub open spec fn pieces_from(s: Seq<char>, pat: Seq<char>, start: int, i: int) -> Seq<Seq<char>>
    decreases s.len() - i,
{
    if pat.len() == 0 || i < 0 || i + pat.len() > s.len() {
        seq![s.subrange(start, s.len() as int)]
    } else if occurs_at(s, pat, i) {
        seq![s.subrange(start, i)] + pieces_from(s, pat, i + pat.len(), i + pat.len())
    } else {
        pieces_from(s, pat, start, i + 1)
    }
}

/// The pieces into which the separator `pat` cuts `s`: one more than there
/// are separators, empty pieces included.
pub open spec fn split(s: Seq<char>, pat: Seq<char>) -> Seq<Seq<char>> {
    pieces_from(s, pat, 0, 0)
}

/// The pieces into which the separator `pat` cuts `v`.
pub fn split_exec(v: &Vec<char>, pat: &Vec<char>) -> (out: Vec<Vec<char>>)
    ensures
        rows(out@) == split(v@, pat@),
        out.len() >= 1,
{
    let n = v.len();
    let m = pat.len();
    let mut out: Vec<Vec<char>> = Vec::new();
    let mut start: usize = 0;
    let mut i: usize = 0;
    assert(rows(out@) + pieces_from(v@, pat@, 0, 0) =~= split(v@, pat@));
    while m > 0 && m <= n && i <= n - m
        invariant
            n == v.len(),
            m == pat.len(),
            start <= i <= n,
            rows(out@) + pieces_from(v@, pat@, start as int, i as int) == split(v@, pat@),
        decreases n - i,
    {
        if occurs_at_exec(v, pat, i) {
            let piece = slice_of(v, start, i);
            proof {
                lemma_rows_push(out@, piece);
                assert(rows(out@).push(piece@) + pieces_from(v@, pat@, i + m, i + m) =~= rows(out@)
                    + pieces_from(v@, pat@, start as int, i as int));
            }
            out.push(piece);
            i = i + m;
            start = i;
        } else {
            i = i + 1;
        }
    }
    let piece = slice_of(v, start, n);
    proof {
        lemma_rows_push(out@, piece);
        assert(rows(out@).push(piece@) =~= rows(out@) + pieces_from(
            v@,
            pat@,
            start as int,
            i as int,
        ));
    }
    out.push(piece);
    out
}

/// The pieces joined again, with `sep` between each two.
pub open spec fn join(pieces: Seq<Seq<char>>, sep: Seq<char>) -> Seq<char>
    decreases pieces.len(),
{
    if pieces.len() == 0 {
        Seq::<char>::empty()
    } else if pieces.len() == 1 {
        pieces[0]
    } else {
        join(pieces.drop_last(), sep) + sep + pieces.last()
    }
}

/// Appends the characters of `tail` to `v`.
pub fn extend(v: &mut Vec<char>, tail: &Vec<char>)
    ensures
        final(v)@ == old(v)@ + tail@,
{
    let mut i: usize = 0;
    while i < tail.len()
        invariant
            i <= tail.len(),
            v@ == old(v)@ + tail@.subrange(0, i as int),
        decreases tail.len() - i,
    {
        v.push(tail[i]);
        assert(tail@.subrange(0, i + 1) =~= tail@.subrange(0, i as int).push(tail@[i as int]));
        assert(v@ =~= old(v)@ + tail@.subrange(0, i + 1));
        i = i + 1;
    }
    assert(tail@.subrange(0, tail.len() as int) =~= tail@);
}

/// The pieces joined, with `sep` between each two.
pub fn join_exec(pieces: &Vec<Vec<char>>, sep: &Vec<char>) -> (r: Vec<char>)
    ensures
        r@ == join(rows(pieces@), sep@),
{
    let mut r: Vec<char> = Vec::new();
    let mut i: usize = 0;
    while i < pieces.len()
        invariant
            i <= pieces.len(),
            r@ == join(rows(pieces@).take(i as int), sep@),
        decreases pieces.len() - i,
    {
        proof {
            let next = rows(pieces@).take(i + 1);
            assert(next.drop_last() =~= rows(pieces@).take(i as int));
            assert(next.last() == pieces@[i as int]@);
        }
        if i > 0 {
            extend(&mut r, sep);
        }
        extend(&mut r, &pieces[i]);
        assert(r@ =~= join(rows(pieces@).take(i + 1), sep@));
        i = i + 1;
    }
    assert(rows(pieces@).take(pieces.len() as int) =~= rows(pieces@));
    r
}

/// Joining a piece to the front of others puts the separator between.
pub proof fn lemma_join_front(first: Seq<char>, rest: Seq<Seq<char>>, sep: Seq<char>)
    requires
        rest.len() > 0,
    ensures
        join(seq![first] + rest, sep) == first + sep + join(rest, sep),
    decreases rest.len(),
{
    let all = seq![first] + rest;
    assert(all.last() == rest.last());
    if rest.len() == 1 {
        assert(all.drop_last() =~= seq![first]);
        assert(seq![first].len() == 1);
        assert(join(seq![first], sep) == first);
        assert(join(rest, sep) == rest[0]);
        assert(join(all, sep) == join(all.drop_last(), sep) + sep + all.last());
    } else {
        assert(all.drop_last() =~= seq![first] + rest.drop_last());
        lemma_join_front(first, rest.drop_last(), sep);
        assert(join(all, sep) =~= first + sep + join(rest, sep));
    }
}

/// What the cutting of `s` from `start` on yields: one piece at least; the
/// pieces, joined with the separator, give the text from `start` on again;
/// and no piece holds the separator, where none begins between `start`
/// and `i`.
pub proof fn lemma_pieces(s: Seq<char>, pat: Seq<char>, start: int, i: int)
    requires
        pat.len() > 0,
        0 <= start <= i <= s.len(),
        forall|j: int| start <= j < i ==> !occurs_at(s, pat, j),
    ensures
        pieces_from(s, pat, start, i).len() >= 1,
        join(pieces_from(s, pat, start, i), pat) == s.subrange(start, s.len() as int),
        forall|k: int|
            0 <= k < pieces_from(s, pat, start, i).len() ==> !contains_text(
                #[trigger] pieces_from(s, pat, start, i)[k],
                pat,
            ),
    decreases s.len() - i,
{
    let pieces = pieces_from(s, pat, start, i);
    if i + pat.len() > s.len() {
        let last = s.subrange(start, s.len() as int);
        assert(!contains_text(last, pat)) by {
            if contains_text(last, pat) {
                let j = choose|j: int| occurs_at(last, pat, j);
                assert(last.subrange(j, j + pat.len()) =~= s.subrange(
                    start + j,
                    start + j + pat.len(),
                ));
                assert(occurs_at(s, pat, start + j));
            }
        }
    } else if occurs_at(s, pat, i) {
        let first = s.subrange(start, i);
        let next = i + pat.len();
        let rest = pieces_from(s, pat, next, next);
        lemma_pieces(s, pat, next, next);
        lemma_join_front(first, rest, pat);
        assert(first + pat + s.subrange(next, s.len() as int) =~= s.subrange(
            start,
            s.len() as int,
        ));
        assert(!contains_text(first, pat)) by {
            if contains_text(first, pat) {
                let j = choose|j: int| occurs_at(first, pat, j);
                assert(first.subrange(j, j + pat.len()) =~= s.subrange(
                    start + j,
                    start + j + pat.len(),
                ));
                assert(occurs_at(s, pat, start + j));
            }
        }
        assert forall|k: int| 0 <= k < pieces.len() implies !contains_text(
            #[trigger] pieces[k],
            pat,
        ) by {
            if k > 0 {
                assert(pieces[k] == rest[k - 1]);
            }
        }
    } else {
        lemma_pieces(s, pat, start, i + 1);
    }
}

/// Cutting a text at a separator and joining the pieces with the
/// separator gives the text again, and no piece holds the separator.
pub proof fn law_split_joins_back(s: Seq<char>, pat: Seq<char>)
    requires
        pat.len() > 0,
    ensures
        split(s, pat).len() >= 1,
        join(split(s, pat), pat) == s,
        replace(s, pat, pat) == s,
        forall|k: int|
            0 <= k < split(s, pat).len() ==> !contains_text(#[trigger] split(s, pat)[k], pat),
{
    lemma_pieces(s, pat, 0, 0);
    assert(s.subrange(0, s.len() as int) =~= s);
}

/// `s` with every occurrence of `pat` replaced by `with`, occurrences taken
/// leftmost and without overlap.
pub open spec fn replace(s: Seq<char>, pat: Seq<char>, with: Seq<char>) -> Seq<char> {
    join(split(s, pat), with)
}

/// `v` with every occurrence of `pat` replaced by `with`.
pub fn replace_exec(v: &Vec<char>, pat: &Vec<char>, with: &Vec<char>) -> (r: Vec<char>)
    ensures
        r@ == replace(v@, pat@, with@),
{
    let pieces = split_exec(v, pat);
    join_exec(&pieces, with)
}

/// The first position at or after `i` that holds no whitespace, or the
/// length of `s`.
pub open spec fn skip_whitespace(s: Seq<char>, i: int) -> int
    decreases s.len() - i,
{
    if 0 <= i < s.len() && char_is_whitespace(s[i]) {
        skip_whitespace(s, i + 1)
    } else {
        i
    }
}

/// The end of `s[lo..j]` once the whitespace at its end is dropped.
pub open spec fn drop_whitespace(s: Seq<char>, lo: int, j: int) -> int
    decreases j,
{
    if 0 <= lo < j <= s.len() && char_is_whitespace(s[j - 1]) {
        drop_whitespace(s, lo, j - 1)
    } else {
        j
    }
}

/// `s` without the whitespace at its two ends.
pub open spec fn trim(s: Seq<char>) -> Seq<char> {
    let a = skip_whitespace(s, 0);
    s.subrange(a, drop_whitespace(s, a, s.len() as int))
}

/// `v` without the whitespace at its two ends.
pub fn trim_exec(v: &Vec<char>) -> (r: Vec<char>)
    ensures
        r@ == trim(v@),
{
    let n = v.len();
    let mut a: usize = 0;
    while a < n && v[a].is_whitespace()
        invariant
            n == v.len(),
            a <= n,
            skip_whitespace(v@, a as int) == skip_whitespace(v@, 0),
        decreases n - a,
    {
        a = a + 1;
    }
    let mut b: usize = n;
    while a < b && v[b - 1].is_whitespace()
        invariant
            n == v.len(),
            a <= b <= n,
            drop_whitespace(v@, a as int, b as int) == drop_whitespace(v@, a as int, n as int),
        decreases b,
    {
        b = b - 1;
    }
    slice_of(v, a, b)
}

/// What the scans for whitespace find: whitespace all the way to where
/// they stop.
pub proof fn lemma_whitespace_scans(s: Seq<char>, i: int, lo: int, j: int)
    requires
        0 <= i <= s.len(),
        0 <= lo <= j <= s.len(),
    ensures
        i <= skip_whitespace(s, i) <= s.len(),
        forall|k: int| i <= k < skip_whitespace(s, i) ==> char_is_whitespace(s[k]),
        skip_whitespace(s, i) < s.len() ==> !char_is_whitespace(s[skip_whitespace(s, i)]),
        lo <= drop_whitespace(s, lo, j) <= j,
        forall|k: int| drop_whitespace(s, lo, j) <= k < j ==> char_is_whitespace(s[k]),
        drop_whitespace(s, lo, j) > lo ==> !char_is_whitespace(s[drop_whitespace(s, lo, j) - 1]),
    decreases s.len() - i + j,
{
    if i < s.len() && char_is_whitespace(s[i]) {
        lemma_whitespace_scans(s, i + 1, lo, lo);
    }
    if lo < j && char_is_whitespace(s[j - 1]) {
        lemma_whitespace_scans(s, s.len() as int, lo, j - 1);
    }
}

/// A trimmed text neither begins nor ends with whitespace, and trimming
/// takes away nothing but whitespace: the text is whitespace, the trimmed
/// text, and whitespace again.
pub proof fn law_trim(s: Seq<char>)
    ensures
        trim(s).len() > 0 ==> !char_is_whitespace(trim(s).first()) && !char_is_whitespace(
            trim(s).last(),
        ),
        exists|a: int, b: int|
            0 <= a <= b <= s.len() && trim(s) == s.subrange(a, b) && (forall|k: int|
                0 <= k < a ==> char_is_whitespace(s[k])) && (forall|k: int|
                b <= k < s.len() ==> char_is_whitespace(s[k])),
        trim(trim(s)) == trim(s),
{
    let a = skip_whitespace(s, 0);
    lemma_whitespace_scans(s, 0, 0, 0);
    lemma_whitespace_scans(s, 0, a, s.len() as int);
    let b = drop_whitespace(s, a, s.len() as int);
    let t = trim(s);
    assert(0 <= a <= b <= s.len() && trim(s) == s.subrange(a, b) && (forall|k: int|
        0 <= k < a ==> char_is_whitespace(s[k])) && (forall|k: int|
        b <= k < s.len() ==> char_is_whitespace(s[k])));
    if t.len() > 0 {
        assert(t.first() == s[a]);
        assert(t.last() == s[b - 1]);
        // a second trim finds nothing to take away
        assert(skip_whitespace(t, 0) == 0);
        assert(drop_whitespace(t, 0, t.len() as int) == t.len());
        assert(t.subrange(0, t.len() as int) =~= t);
    } else {
        assert(skip_whitespace(t, 0) == 0);
        assert(drop_whitespace(t, 0, 0) == 0);
        assert(t.subrange(0, 0) =~= t);
    }
}

/// The first position at or after `i` that does not hold `c`, or the length of `s`.
pub open spec fn skip_char(s: Seq<char>, c: char, i: int) -> int
    decreases s.len() - i,
{
    if 0 <= i < s.len() && s[i] == c {
        skip_char(s, c, i + 1)
    } else {
        i
    }
}

/// The end of `s[lo..j]` once the `c`s at its end are dropped.
pub open spec fn drop_char(s: Seq<char>, c: char, lo: int, j: int) -> int
    decreases j,
{
    if 0 <= lo < j <= s.len() && s[j - 1] == c {
        drop_char(s, c, lo, j - 1)
    } else {
        j
    }
}

/// `s` without the run of `c` at each of its two ends.
pub open spec fn trim_matches(s: Seq<char>, c: char) -> Seq<char> {
    let a = skip_char(s, c, 0);
    s.subrange(a, drop_char(s, c, a, s.len() as int))
}

/// `v` without the run of `c` at each of its two ends.
pub fn trim_matches_exec(v: &Vec<char>, c: char) -> (r: Vec<char>)
    ensures
        r@ == trim_matches(v@, c),
{
    let n = v.len();
    let mut a: usize = 0;
    while a < n && v[a] == c
        invariant
            n == v.len(),
            a <= n,
            skip_char(v@, c, a as int) == skip_char(v@, c, 0),
        decreases n - a,
    {
        a = a + 1;
    }
    let mut b: usize = n;
    while a < b && v[b - 1] == c
        invariant
            n == v.len(),
            a <= b <= n,
            drop_char(v@, c, a as int, b as int) == drop_char(v@, c, a as int, n as int),
        decreases b,
    {
        b = b - 1;
    }
    slice_of(v, a, b)
}

/// `s` without one carriage return at its end, if it has one.
pub open spec fn without_carriage_return(s: Seq<char>) -> Seq<char> {
    if s.len() > 0 && s.last() == '\r' {
        s.drop_last()
    } else {
        s
    }
}

/// The lines of a text. A line ends with a line feed, or with a carriage
/// return and a line feed; neither belongs to the line. What follows the
/// last line feed is a line of its own unless it is empty.
pub open spec fn lines(s: Seq<char>) -> Seq<Seq<char>> {
    let pieces = split(s, seq!['\n']);
    let ended = pieces.drop_last().map_values(|p: Seq<char>| without_carriage_return(p));
    if pieces.last().len() == 0 {
        ended
    } else {
        ended.push(pieces.last())
    }
}

/// The lines of `v`.
pub fn lines_exec(v: &Vec<char>) -> (out: Vec<Vec<char>>)
    ensures
        rows(out@) == lines(v@),
{
    let mut pat: Vec<char> = Vec::new();
    pat.push('\n');
    assert(pat@ =~= seq!['\n']);
    let pieces = split_exec(v, &pat);
    let count = pieces.len();
    let ghost all = rows(pieces@);
    let ghost ended = all.drop_last().map_values(|p: Seq<char>| without_carriage_return(p));
    let mut out: Vec<Vec<char>> = Vec::new();
    let mut i: usize = 0;
    while i + 1 < count
        invariant
            count == pieces.len(),
            count >= 1,
            i + 1 <= count,
            all == rows(pieces@),
            ended == all.drop_last().map_values(|p: Seq<char>| without_carriage_return(p)),
            rows(out@) == ended.take(i as int),
        decreases count - i,
    {
        let piece = &pieces[i];
        let line = if piece.len() > 0 && piece[piece.len() - 1] == '\r' {
            slice_of(piece, 0, piece.len() - 1)
        } else {
            slice_of(piece, 0, piece.len())
        };
        proof {
            assert(piece@.subrange(0, piece.len() as int) =~= piece@);
            assert(line@ == without_carriage_return(piece@));
            lemma_rows_push(out@, line);
            assert(ended.take(i + 1) =~= ended.take(i as int).push(line@));
        }
        out.push(line);
        i = i + 1;
    }
    assert(ended.take(i as int) =~= ended);
    let tail = &pieces[count - 1];
    if tail.len() > 0 {
        let line = slice_of(tail, 0, tail.len());
        proof {
            assert(line@ =~= tail@);
            lemma_rows_push(out@, line);
        }
        out.push(line);
    }
    out
}

} // verus!
