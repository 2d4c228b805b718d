//! Verified text utilities: substring search, line and whitespace splitting,
//! trimming and decimal formatting. The status texts that external tools print
//! are interpreted with these, so each operation carries an exact functional
//! contract over `Seq<char>`.

use vstd::prelude::*;

verus! {

/// The whitespace characters recognised by the splitters and trimmers.
pub open spec fn is_space_char(c: char) -> bool {
    c == ' ' || c == '\t' || c == '\r' || c == '\n'
}

/// `needle` occurs in `hay` starting at position `at`.
pub open spec fn matches_at(hay: Seq<char>, at: int, needle: Seq<char>) -> bool {
    &&& 0 <= at
    &&& at + needle.len() <= hay.len()
    &&& hay.subrange(at, at + needle.len() as int) == needle
}

/// `needle` occurs somewhere in `hay`.
pub open spec fn contains_seq(hay: Seq<char>, needle: Seq<char>) -> bool {
    exists|i: int| matches_at(hay, i, needle)
}

/// Character-for-character string equality, decided executably.
pub fn str_eq(a: &str, b: &str) -> (r: bool)
    ensures
        r == (a@ == b@),
{
    let an = a.unicode_len();
    let bn = b.unicode_len();
    if an != bn {
        return false;
    }
    let mut i: usize = 0;
    while i < an
        invariant
            i <= an,
            an == a@.len(),
            an == b@.len(),
            forall|k: int| 0 <= k < i ==> a@[k] == b@[k],
        decreases an - i,
    {
        if a.get_char(i) != b.get_char(i) {
            return false;
        }
        i += 1;
    }
    proof {
        assert(a@ =~= b@);
    }
    true
}

/// Whether `needle` occurs in `hay` at the given position.
fn match_at_exec(hay: &str, at: usize, needle: &str) -> (r: bool)
    requires
        at + needle@.len() <= hay@.len(),
    ensures
        r == matches_at(hay@, at as int, needle@),
{
    let hn = hay.unicode_len();
    let nn = needle.unicode_len();
    let mut j: usize = 0;
    while j < nn
        invariant
            j <= nn,
            nn == needle@.len(),
            hn == hay@.len(),
            at + nn <= hn,
            forall|k: int| 0 <= k < j ==> hay@[at + k] == needle@[k],
        decreases nn - j,
    {
        if hay.get_char(at + j) != needle.get_char(j) {
            proof {
                assert(hay@.subrange(at as int, at + nn as int)[j as int] == hay@[at + j]);
            }
            return false;
        }
        j += 1;
    }
    proof {
        assert(hay@.subrange(at as int, at + nn as int) =~= needle@);
    }
    true
}

/// Substring search; reports the first position of `needle` in `hay`.
pub fn find_sub(hay: &str, needle: &str) -> (r: Option<usize>)
    ensures
        match r {
            Some(i) => matches_at(hay@, i as int, needle@) && forall|k: int|
                0 <= k < i ==> !matches_at(hay@, k, needle@),
            None => !contains_seq(hay@, needle@),
        },
{
    let hn = hay.unicode_len();
    let nn = needle.unicode_len();
    if nn > hn {
        return None;
    }
    let bound = hn - nn;
    let mut i: usize = 0;
    loop
        invariant
            nn <= hn,
            hn == hay@.len(),
            nn == needle@.len(),
            bound == hn - nn,
            i <= bound,
            forall|k: int| 0 <= k < i ==> !matches_at(hay@, k, needle@),
        decreases bound - i,
    {
        if match_at_exec(hay, i, needle) {
            return Some(i);
        }
        if i == bound {
            proof {
                assert forall|k: int| !matches_at(hay@, k, needle@) by {
                    if 0 <= k && k + needle@.len() <= hay@.len() {
                        if k < i as int {
                        } else {
                            assert(k == i as int);
                        }
                    }
                }
            }
            return None;
        }
        i += 1;
    }
}

/// Whether `needle` occurs anywhere in `hay`.
pub fn contains_sub(hay: &str, needle: &str) -> (r: bool)
    ensures
        r == contains_seq(hay@, needle@),
{
    match find_sub(hay, needle) {
        Some(_) => true,
        None => false,
    }
}

/// `pre` is a prefix of `s`.
pub open spec fn starts_with_spec(s: Seq<char>, pre: Seq<char>) -> bool {
    s.len() >= pre.len() && s.subrange(0, pre.len() as int) == pre
}

/// `sfx` is a suffix of `s`.
pub open spec fn ends_with_spec(s: Seq<char>, sfx: Seq<char>) -> bool {
    s.len() >= sfx.len() && s.subrange(s.len() - sfx.len(), s.len() as int) == sfx
}

/// Whether `s` starts with `pre`.
pub fn starts_with(s: &str, pre: &str) -> (r: bool)
    ensures
        r == starts_with_spec(s@, pre@),
{
    let n = s.unicode_len();
    let m = pre.unicode_len();
    if m > n {
        return false;
    }
    match_at_exec(s, 0, pre)
}

/// Whether `s` ends with `sfx`.
pub fn ends_with(s: &str, sfx: &str) -> (r: bool)
    ensures
        r == ends_with_spec(s@, sfx@),
{
    let n = s.unicode_len();
    let m = sfx.unicode_len();
    if m > n {
        return false;
    }
    match_at_exec(s, n - m, sfx)
}

/// The position of the first occurrence of `needle` in `hay`, when any.
pub open spec fn first_at(hay: Seq<char>, needle: Seq<char>) -> Option<int>
    decreases hay.len(),
{
    if matches_at(hay, 0, needle) {
        Some(0int)
    } else if hay.len() == 0 {
        None
    } else {
        match first_at(hay.drop_first(), needle) {
            Some(j) => Some(j + 1),
            None => None,
        }
    }
}

/// `first_at` names exactly the least match position.
pub proof fn lemma_first_at_characterization(hay: Seq<char>, needle: Seq<char>)
    ensures
        match first_at(hay, needle) {
            Some(i) => matches_at(hay, i, needle) && forall|k: int|
                0 <= k < i ==> !matches_at(hay, k, needle),
            None => !contains_seq(hay, needle),
        },
    decreases hay.len(),
{
    if !matches_at(hay, 0, needle) && hay.len() > 0 {
        let d = hay.drop_first();
        lemma_first_at_characterization(d, needle);
        assert forall|k: int| #[trigger] matches_at(hay, k, needle) implies k >= 1 && matches_at(
            d,
            k - 1,
            needle,
        ) by {
            assert(d.subrange(k - 1, k - 1 + needle.len() as int) =~= hay.subrange(
                k,
                k + needle.len() as int,
            ));
        }
        assert forall|k: int| #[trigger] matches_at(d, k, needle) implies matches_at(
            hay,
            k + 1,
            needle,
        ) by {
            assert(hay.subrange(k + 1, k + 1 + needle.len() as int) =~= d.subrange(
                k,
                k + needle.len() as int,
            ));
        }
        match first_at(d, needle) {
            Some(j) => {
                assert(matches_at(hay, j + 1, needle));
            },
            None => {
                if contains_seq(hay, needle) {
                    let k = choose|k: int| matches_at(hay, k, needle);
                    assert(matches_at(d, k - 1, needle));
                }
            },
        }
    }
}

/// Substring search against the spec-level position.
pub fn find_first(hay: &str, needle: &str) -> (r: Option<usize>)
    ensures
        match r {
            Some(i) => first_at(hay@, needle@) == Some(i as int),
            None => first_at(hay@, needle@) is None,
        },
{
    proof {
        lemma_first_at_characterization(hay@, needle@);
    }
    match find_sub(hay, needle) {
        Some(i) => {
            proof {
                match first_at(hay@, needle@) {
                    Some(j) => {
                        if j < i {
                        } else if i < j {
                        }
                    },
                    None => {
                        assert(matches_at(hay@, i as int, needle@));
                    },
                }
            }
            Some(i)
        },
        None => None,
    }
}

/// The views of a sequence of owned strings.
pub open spec fn strs_view(v: Seq<String>) -> Seq<Seq<char>> {
    v.map_values(|x: String| x@)
}

/// Executable test for `is_space_char`.
pub fn is_space_exec(c: char) -> (r: bool)
    ensures
        r == is_space_char(c),
{
    c == ' ' || c == '\t' || c == '\r' || c == '\n'
}

/// Split at every occurrence of `sep`, keeping empty pieces, so the result
/// holds one piece more than there are separators.
pub open spec fn raw_split(s: Seq<char>, sep: char) -> Seq<Seq<char>>
    decreases s.len(),
{
    if s.len() == 0 {
        seq![Seq::<char>::empty()]
    } else if s[0] == sep {
        seq![Seq::<char>::empty()] + raw_split(s.drop_first(), sep)
    } else {
        let rest = raw_split(s.drop_first(), sep);
        seq![seq![s[0]] + rest[0]] + rest.drop_first()
    }
}

pub proof fn lemma_raw_split_len(s: Seq<char>, sep: char)
    ensures
        raw_split(s, sep).len() >= 1,
    decreases s.len(),
{
    if s.len() == 0 {
    } else {
        lemma_raw_split_len(s.drop_first(), sep);
    }
}

/// If the first `k` characters hold no separator and the `k`th (when present)
/// is one, the split is the prefix followed by the split of the remainder.
pub proof fn lemma_raw_split_piece(s: Seq<char>, sep: char, k: int)
    requires
        0 <= k <= s.len(),
        forall|t: int| 0 <= t < k ==> s[t] != sep,
        k < s.len() ==> s[k] == sep,
    ensures
        k < s.len() ==> raw_split(s, sep) == seq![s.take(k)] + raw_split(s.skip(k + 1), sep),
        k == s.len() ==> raw_split(s, sep) == seq![s],
    decreases k,
{
    lemma_raw_split_len(s.drop_first(), sep);
    if k == 0 {
        if s.len() == 0 {
            assert(raw_split(s, sep) =~~= seq![s]);
        } else {
            assert(s.take(0) =~= Seq::<char>::empty());
            assert(s.skip(1) =~= s.drop_first());
            assert(raw_split(s, sep) =~~= seq![s.take(0)] + raw_split(s.skip(1), sep));
        }
    } else {
        let d = s.drop_first();
        lemma_raw_split_piece(d, sep, k - 1);
        let rest = raw_split(d, sep);
        if k < s.len() {
            assert(d.take(k - 1) =~= s.take(k).drop_first());
            assert(seq![s[0]] + rest[0] =~= s.take(k));
            assert(d.skip(k) =~= s.skip(k + 1));
            assert(rest.drop_first() =~~= raw_split(s.skip(k + 1), sep));
            assert(raw_split(s, sep) =~~= seq![s.take(k)] + raw_split(s.skip(k + 1), sep));
        } else {
            assert(rest =~~= seq![d]);
            assert(seq![s[0]] + rest[0] =~= s);
            assert(raw_split(s, sep) =~~= seq![s]);
        }
    }
}

/// Split at every occurrence of `sep`, keeping empty pieces.
pub fn split_char_vec(s: &str, sep: char) -> (r: Vec<String>)
    ensures
        strs_view(r@) == raw_split(s@, sep),
{
    let n = s.unicode_len();
    let mut out: Vec<String> = Vec::new();
    let mut start: usize = 0;
    let mut i: usize = 0;
    proof {
        assert(s@.skip(0) =~= s@);
        assert(strs_view(out@) + raw_split(s@, sep) =~~= raw_split(s@, sep));
    }
    loop
        invariant
            start <= i <= n,
            n == s@.len(),
            forall|t: int| start <= t < i ==> s@[t] != sep,
            raw_split(s@, sep) == strs_view(out@) + raw_split(s@.skip(start as int), sep),
        decreases n - i,
    {
        if i == n {
            let piece = s.substring_char(start, n).to_owned();
            proof {
                let tail = s@.skip(start as int);
                lemma_raw_split_piece(tail, sep, tail.len() as int);
                assert(piece@ =~= tail);
                assert(strs_view(out@.push(piece)) =~~= strs_view(out@).push(piece@));
                assert(strs_view(out@.push(piece)) =~~= strs_view(out@) + seq![tail]);
            }
            out.push(piece);
            return out;
        }
        let c = s.get_char(i);
        if c == sep {
            let piece = s.substring_char(start, i).to_owned();
            proof {
                let tail = s@.skip(start as int);
                let k = i - start;
                assert forall|t: int| 0 <= t < k implies tail[t] != sep by {
                    assert(tail[t] == s@[start + t]);
                }
                assert(tail[k as int] == s@[i as int]);
                lemma_raw_split_piece(tail, sep, k as int);
                assert(tail.take(k as int) =~= s@.subrange(start as int, i as int));
                assert(tail.skip(k + 1) =~= s@.skip(i + 1));
                assert(strs_view(out@.push(piece)) =~~= strs_view(out@).push(piece@));
                assert(raw_split(s@, sep) =~~= strs_view(out@.push(piece)) + raw_split(
                    s@.skip(i + 1),
                    sep,
                ));
            }
            out.push(piece);
            start = i + 1;
        }
        i += 1;
    }
}

/// A piece with a trailing carriage return loses it.
pub open spec fn strip_cr(p: Seq<char>) -> Seq<char> {
    if p.len() > 0 && p.last() == '\r' {
        p.drop_last()
    } else {
        p
    }
}

/// The lines of a text: split at newlines, an optional final line ending
/// forming no extra line, and a trailing carriage return dropped per line.
pub open spec fn lines_of(s: Seq<char>) -> Seq<Seq<char>> {
    if s.len() == 0 {
        Seq::empty()
    } else {
        let pieces = if s.last() == '\n' {
            raw_split(s, '\n').drop_last()
        } else {
            raw_split(s, '\n')
        };
        pieces.map_values(|p: Seq<char>| strip_cr(p))
    }
}

fn strip_cr_exec(q: &String) -> (r: String)
    ensures
        r@ == strip_cr(q@),
{
    let m = q.as_str().unicode_len();
    if m > 0 && q.as_str().get_char(m - 1) == '\r' {
        let r = q.as_str().substring_char(0, m - 1).to_owned();
        proof {
            assert(r@ =~= q@.drop_last());
        }
        r
    } else {
        q.clone()
    }
}

/// Split a text into its lines.
pub fn lines_vec(s: &str) -> (r: Vec<String>)
    ensures
        strs_view(r@) == lines_of(s@),
{
    let n = s.unicode_len();
    let mut out: Vec<String> = Vec::new();
    if n == 0 {
        proof {
            assert(strs_view(out@) =~~= lines_of(s@));
        }
        return out;
    }
    let mut pieces = split_char_vec(s, '\n');
    proof {
        lemma_raw_split_len(s@, '\n');
        assert(pieces@.len() == strs_view(pieces@).len());
    }
    if s.get_char(n - 1) == '\n' {
        pieces.pop();
        proof {
            assert(strs_view(pieces@) =~~= raw_split(s@, '\n').drop_last());
        }
    }
    let ghost target = if s@.last() == '\n' {
        raw_split(s@, '\n').drop_last()
    } else {
        raw_split(s@, '\n')
    };
    let mut idx: usize = 0;
    while idx < pieces.len()
        invariant
            idx <= pieces@.len(),
            strs_view(pieces@) == target,
            strs_view(out@) == target.take(idx as int).map_values(|p: Seq<char>| strip_cr(p)),
        decreases pieces@.len() - idx,
    {
        let stripped = strip_cr_exec(&pieces[idx]);
        proof {
            assert(strs_view(pieces@)[idx as int] == pieces@[idx as int]@);
            assert(strs_view(out@.push(stripped)) =~~= strs_view(out@).push(stripped@));
            assert(target.take(idx + 1).map_values(|p: Seq<char>| strip_cr(p)) =~~= target.take(
                idx as int,
            ).map_values(|p: Seq<char>| strip_cr(p)).push(strip_cr(target[idx as int])));
        }
        out.push(stripped);
        idx += 1;
    }
    proof {
        assert(target.take(target.len() as int) =~= target);
        assert(strs_view(out@) =~~= lines_of(s@));
    }
    out
}

/// The maximal whitespace-free tokens of a text, in order; no empty tokens.
pub open spec fn split_ws(s: Seq<char>) -> Seq<Seq<char>>
    decreases s.len(),
{
    if s.len() == 0 {
        Seq::empty()
    } else if is_space_char(s[0]) {
        split_ws(s.drop_first())
    } else if s.len() >= 2 && !is_space_char(s[1]) {
        let rest = split_ws(s.drop_first());
        seq![seq![s[0]] + rest[0]] + rest.drop_first()
    } else {
        seq![seq![s[0]]] + split_ws(s.drop_first())
    }
}

pub proof fn lemma_split_ws_nonempty_head(s: Seq<char>)
    requires
        s.len() > 0,
        !is_space_char(s[0]),
    ensures
        split_ws(s).len() >= 1,
{
}

/// A maximal run of `k` non-space characters at the front is the first token.
pub proof fn lemma_split_ws_token(s: Seq<char>, k: int)
    requires
        1 <= k <= s.len(),
        forall|t: int| 0 <= t < k ==> !is_space_char(s[t]),
        k < s.len() ==> is_space_char(s[k]),
    ensures
        split_ws(s) == seq![s.take(k)] + split_ws(s.skip(k)),
    decreases k,
{
    let d = s.drop_first();
    if k == 1 {
        if s.len() == 1 {
            assert(split_ws(s) =~~= seq![s.take(1)] + split_ws(s.skip(1)));
        } else {
            assert(s.take(1) =~= seq![s[0]]);
            assert(s.skip(1) =~= d);
            assert(split_ws(s) =~~= seq![s.take(1)] + split_ws(s.skip(1)));
        }
    } else {
        assert forall|t: int| 0 <= t < k - 1 implies !is_space_char(d[t]) by {
            assert(d[t] == s[t + 1]);
        }
        lemma_split_ws_token(d, k - 1);
        lemma_split_ws_nonempty_head(d);
        let rest = split_ws(d);
        assert(d.take(k - 1) =~= s.take(k).drop_first());
        assert(seq![s[0]] + rest[0] =~= s.take(k));
        assert(d.skip(k - 1) =~= s.skip(k));
        assert(rest.drop_first() =~~= split_ws(s.skip(k)));
        assert(split_ws(s) =~~= seq![s.take(k)] + split_ws(s.skip(k)));
    }
}

/// Tokenize a text on whitespace.
pub fn split_ws_vec(s: &str) -> (r: Vec<String>)
    ensures
        strs_view(r@) == split_ws(s@),
{
    let n = s.unicode_len();
    let mut out: Vec<String> = Vec::new();
    let mut i: usize = 0;
    proof {
        assert(s@.skip(0) =~= s@);
        assert(strs_view(out@) + split_ws(s@) =~~= split_ws(s@));
    }
    loop
        invariant
            i <= n,
            n == s@.len(),
            split_ws(s@) == strs_view(out@) + split_ws(s@.skip(i as int)),
        decreases n - i,
    {
        if i == n {
            proof {
                assert(strs_view(out@) + split_ws(s@.skip(n as int)) =~~= strs_view(out@));
            }
            return out;
        }
        let c = s.get_char(i);
        if is_space_exec(c) {
            proof {
                let tail = s@.skip(i as int);
                assert(tail[0] == s@[i as int]);
                assert(tail.drop_first() =~= s@.skip(i + 1));
            }
            i += 1;
        } else {
            let mut j = i + 1;
            while j < n && !is_space_exec(s.get_char(j))
                invariant
                    i < j <= n,
                    n == s@.len(),
                    forall|t: int| i <= t < j ==> !is_space_char(s@[t]),
                decreases n - j,
            {
                j += 1;
            }
            let piece = s.substring_char(i, j).to_owned();
            proof {
                let tail = s@.skip(i as int);
                let k = j - i;
                assert forall|t: int| 0 <= t < k implies !is_space_char(tail[t]) by {
                    assert(tail[t] == s@[i + t]);
                }
                if (j as int) < n as int {
                    assert(tail[k as int] == s@[j as int]);
                }
                lemma_split_ws_token(tail, k as int);
                assert(tail.take(k as int) =~= s@.subrange(i as int, j as int));
                assert(tail.skip(k as int) =~= s@.skip(j as int));
                assert(strs_view(out@.push(piece)) =~~= strs_view(out@).push(piece@));
                assert(split_ws(s@) =~~= strs_view(out@.push(piece)) + split_ws(s@.skip(j as int)));
            }
            out.push(piece);
            i = j;
        }
    }
}

/// Every occurrence of a non-empty pattern removed, scanning left to right
/// over non-overlapping matches; an empty pattern removes nothing.
pub open spec fn remove_all(s: Seq<char>, pat: Seq<char>) -> Seq<char>
    decreases s.len(),
{
    if pat.len() == 0 || s.len() < pat.len() {
        s
    } else if s.subrange(0, pat.len() as int) == pat {
        remove_all(s.skip(pat.len() as int), pat)
    } else {
        seq![s[0]] + remove_all(s.drop_first(), pat)
    }
}

/// Remove every occurrence of `pat` from `s`.
pub fn remove_all_str(s: &str, pat: &str) -> (r: String)
    ensures
        r@ == remove_all(s@, pat@),
{
    let n = s.unicode_len();
    let m = pat.unicode_len();
    if m == 0 {
        return s.to_owned();
    }
    let mut out = String::new();
    let mut i: usize = 0;
    proof {
        assert(s@.skip(0) =~= s@);
    }
    while i < n
        invariant
            i <= n,
            n == s@.len(),
            m == pat@.len(),
            m >= 1,
            remove_all(s@, pat@) == out@ + remove_all(s@.skip(i as int), pat@),
        decreases n - i,
    {
        let tail_len = n - i;
        if tail_len >= m && match_at_exec(s, i, pat) {
            proof {
                let tail = s@.skip(i as int);
                assert(tail.subrange(0, m as int) =~= s@.subrange(i as int, i + m));
                assert(tail.skip(m as int) =~= s@.skip(i + m));
            }
            i += m;
        } else {
            let piece = s.substring_char(i, i + 1);
            out.append(piece);
            proof {
                let tail = s@.skip(i as int);
                assert(piece@ =~= seq![s@[i as int]]);
                if tail.len() >= m {
                    assert(tail.subrange(0, m as int) =~= s@.subrange(i as int, i + m));
                    assert(tail[0] == s@[i as int]);
                    assert(tail.drop_first() =~= s@.skip(i + 1));
                } else {
                    assert(remove_all(tail, pat@) == tail);
                    assert(remove_all(s@.skip(i + 1), pat@) == s@.skip(i + 1));
                    assert(tail =~= seq![s@[i as int]] + s@.skip(i + 1));
                }
            }
            i += 1;
        }
    }
    proof {
        assert(s@.skip(n as int) =~= Seq::<char>::empty());
    }
    out
}

/// Leading whitespace removed.
pub open spec fn trim_start_spec(s: Seq<char>) -> Seq<char>
    decreases s.len(),
{
    if s.len() > 0 && is_space_char(s[0]) {
        trim_start_spec(s.drop_first())
    } else {
        s
    }
}

/// Trailing whitespace removed.
pub open spec fn trim_end_spec(s: Seq<char>) -> Seq<char>
    decreases s.len(),
{
    if s.len() > 0 && is_space_char(s.last()) {
        trim_end_spec(s.drop_last())
    } else {
        s
    }
}

/// Whitespace removed at both ends.
pub open spec fn trim_spec(s: Seq<char>) -> Seq<char> {
    trim_end_spec(trim_start_spec(s))
}

proof fn lemma_trim_start_skip(s: Seq<char>, a: int)
    requires
        0 <= a <= s.len(),
        forall|t: int| 0 <= t < a ==> is_space_char(s[t]),
        a < s.len() ==> !is_space_char(s[a]),
    ensures
        trim_start_spec(s) == s.skip(a),
    decreases a,
{
    if a == 0 {
        assert(s.skip(0) =~= s);
    } else {
        let d = s.drop_first();
        assert forall|t: int| 0 <= t < a - 1 implies is_space_char(d[t]) by {
            assert(d[t] == s[t + 1]);
        }
        lemma_trim_start_skip(d, a - 1);
        assert(d.skip(a - 1) =~= s.skip(a));
    }
}

proof fn lemma_trim_end_take(s: Seq<char>, b: int)
    requires
        0 <= b <= s.len(),
        forall|t: int| b <= t < s.len() ==> is_space_char(s[t]),
        b > 0 ==> !is_space_char(s[b - 1]),
    ensures
        trim_end_spec(s) == s.take(b),
    decreases s.len() - b,
{
    if b == s.len() {
        assert(s.take(b) =~= s);
    } else {
        let d = s.drop_last();
        assert forall|t: int| b <= t < d.len() implies is_space_char(d[t]) by {
            assert(d[t] == s[t]);
        }
        lemma_trim_end_take(d, b);
        assert(d.take(b) =~= s.take(b));
    }
}

/// Trim whitespace from both ends of a text.
pub fn trim_str(s: &str) -> (r: String)
    ensures
        r@ == trim_spec(s@),
{
    let n = s.unicode_len();
    let mut a: usize = 0;
    while a < n && is_space_exec(s.get_char(a))
        invariant
            a <= n,
            n == s@.len(),
            forall|t: int| 0 <= t < a ==> is_space_char(s@[t]),
        decreases n - a,
    {
        a += 1;
    }
    if a == n {
        proof {
            lemma_trim_start_skip(s@, a as int);
            assert(s@.skip(n as int) =~= Seq::<char>::empty());
        }
        return String::new();
    }
    let mut b: usize = n;
    while is_space_exec(s.get_char(b - 1))
        invariant
            a + 1 <= b <= n,
            n == s@.len(),
            !is_space_char(s@[a as int]),
            forall|t: int| b <= t < n ==> is_space_char(s@[t]),
        decreases b,
    {
        b -= 1;
    }
    let r = s.substring_char(a, b).to_owned();
    proof {
        lemma_trim_start_skip(s@, a as int);
        let tail = s@.skip(a as int);
        assert forall|t: int| b - a <= t < tail.len() implies is_space_char(tail[t]) by {
            assert(tail[t] == s@[a + t]);
        }
        assert(tail[b - a - 1] == s@[b - 1]);
        lemma_trim_end_take(tail, b - a);
        assert(tail.take(b - a) =~= s@.subrange(a as int, b as int));
    }
    r
}

/// Everything after the first occurrence of `sep`; empty when `sep` is absent.
pub open spec fn after_first(s: Seq<char>, sep: char) -> Seq<char>
    decreases s.len(),
{
    if s.len() == 0 {
        Seq::empty()
    } else if s[0] == sep {
        s.drop_first()
    } else {
        after_first(s.drop_first(), sep)
    }
}

proof fn lemma_after_first_at(s: Seq<char>, sep: char, k: int)
    requires
        0 <= k <= s.len(),
        forall|t: int| 0 <= t < k ==> s[t] != sep,
        k < s.len() ==> s[k] == sep,
    ensures
        k < s.len() ==> after_first(s, sep) == s.skip(k + 1),
        k == s.len() ==> after_first(s, sep) == Seq::<char>::empty(),
    decreases k,
{
    if k == 0 {
        if s.len() > 0 {
            assert(s.skip(1) =~= s.drop_first());
        }
    } else {
        let d = s.drop_first();
        assert forall|t: int| 0 <= t < k - 1 implies d[t] != sep by {
            assert(d[t] == s[t + 1]);
        }
        lemma_after_first_at(d, sep, k - 1);
        if k < s.len() {
            assert(d.skip(k) =~= s.skip(k + 1));
        }
    }
}

/// The text after the first occurrence of `sep`.
pub fn after_first_char(s: &str, sep: char) -> (r: String)
    ensures
        r@ == after_first(s@, sep),
{
    let n = s.unicode_len();
    let mut i: usize = 0;
    while i < n && s.get_char(i) != sep
        invariant
            i <= n,
            n == s@.len(),
            forall|t: int| 0 <= t < i ==> s@[t] != sep,
        decreases n - i,
    {
        i += 1;
    }
    proof {
        lemma_after_first_at(s@, sep, i as int);
    }
    if i == n {
        String::new()
    } else {
        let r = s.substring_char(i + 1, n).to_owned();
        proof {
            assert(s@.subrange(i + 1, n as int) =~= s@.skip(i + 1));
        }
        r
    }
}

/// The first line that holds `needle` as a substring, when there is one.
pub open spec fn first_line_containing(ls: Seq<Seq<char>>, needle: Seq<char>) -> Option<Seq<char>>
    decreases ls.len(),
{
    if ls.len() == 0 {
        None
    } else if contains_seq(ls[0], needle) {
        Some(ls[0])
    } else {
        first_line_containing(ls.drop_first(), needle)
    }
}

proof fn lemma_first_line_skip(ls: Seq<Seq<char>>, needle: Seq<char>, i: int)
    requires
        0 <= i <= ls.len(),
        forall|k: int| 0 <= k < i ==> !contains_seq(ls[k], needle),
    ensures
        first_line_containing(ls, needle) == first_line_containing(ls.skip(i), needle),
    decreases i,
{
    if i == 0 {
        assert(ls.skip(0) =~= ls);
    } else {
        let d = ls.drop_first();
        assert forall|k: int| 0 <= k < i - 1 implies !contains_seq(d[k], needle) by {
            assert(d[k] == ls[k + 1]);
        }
        lemma_first_line_skip(d, needle, i - 1);
        assert(d.skip(i - 1) =~= ls.skip(i));
    }
}

/// Find the first line holding `needle` as a substring.
pub fn find_line_containing<'a>(lines: &'a Vec<String>, needle: &str) -> (r: Option<&'a String>)
    ensures
        match r {
            Some(l) => first_line_containing(strs_view(lines@), needle@) == Some(l@),
            None => first_line_containing(strs_view(lines@), needle@) is None,
        },
{
    let ghost ls = strs_view(lines@);
    let mut i: usize = 0;
    while i < lines.len()
        invariant
            i <= lines@.len(),
            ls == strs_view(lines@),
            forall|k: int| 0 <= k < i ==> !contains_seq(ls[k], needle@),
        decreases lines@.len() - i,
    {
        if contains_sub(lines[i].as_str(), needle) {
            proof {
                lemma_first_line_skip(ls, needle@, i as int);
                assert(ls.skip(i as int)[0] == ls[i as int]);
            }
            return Some(&lines[i]);
        }
        i += 1;
    }
    proof {
        lemma_first_line_skip(ls, needle@, i as int);
        assert(ls.skip(i as int) =~~= Seq::<Seq<char>>::empty());
    }
    None
}

/// The position of the first token equal to `w`, when there is one.
pub open spec fn first_eq_pos(toks: Seq<Seq<char>>, w: Seq<char>) -> Option<int>
    decreases toks.len(),
{
    if toks.len() == 0 {
        None
    } else if toks[0] == w {
        Some(0int)
    } else {
        match first_eq_pos(toks.drop_first(), w) {
            Some(j) => Some(j + 1),
            None => None,
        }
    }
}

pub proof fn lemma_first_eq_pos_bounds(toks: Seq<Seq<char>>, w: Seq<char>)
    ensures
        match first_eq_pos(toks, w) {
            Some(j) => 0 <= j < toks.len() && toks[j] == w,
            None => true,
        },
    decreases toks.len(),
{
    if toks.len() > 0 && toks[0] != w {
        lemma_first_eq_pos_bounds(toks.drop_first(), w);
    }
}

proof fn lemma_first_eq_pos_skip(toks: Seq<Seq<char>>, w: Seq<char>, i: int)
    requires
        0 <= i <= toks.len(),
        forall|k: int| 0 <= k < i ==> toks[k] != w,
    ensures
        first_eq_pos(toks, w) == match first_eq_pos(toks.skip(i), w) {
            Some(j) => Some(j + i),
            None => None::<int>,
        },
    decreases i,
{
    if i == 0 {
        assert(toks.skip(0) =~= toks);
    } else {
        let d = toks.drop_first();
        assert forall|k: int| 0 <= k < i - 1 implies d[k] != w by {
            assert(d[k] == toks[k + 1]);
        }
        lemma_first_eq_pos_skip(d, w, i - 1);
        assert(d.skip(i - 1) =~= toks.skip(i));
    }
}

/// Find the position of the first token equal to `w`.
pub fn find_eq_pos(toks: &Vec<String>, w: &str) -> (r: Option<usize>)
    ensures
        match r {
            Some(i) => first_eq_pos(strs_view(toks@), w@) == Some(i as int),
            None => first_eq_pos(strs_view(toks@), w@) is None,
        },
{
    let ghost ts = strs_view(toks@);
    let mut i: usize = 0;
    while i < toks.len()
        invariant
            i <= toks@.len(),
            ts == strs_view(toks@),
            forall|k: int| 0 <= k < i ==> ts[k] != w@,
        decreases toks@.len() - i,
    {
        if str_eq(toks[i].as_str(), w) {
            proof {
                lemma_first_eq_pos_skip(ts, w@, i as int);
                assert(ts.skip(i as int)[0] == ts[i as int]);
            }
            return Some(i);
        }
        i += 1;
    }
    proof {
        lemma_first_eq_pos_skip(ts, w@, i as int);
        assert(ts.skip(i as int) =~~= Seq::<Seq<char>>::empty());
    }
    None
}

/// Concatenation of two texts.
pub fn concat2(a: &str, b: &str) -> (r: String)
    ensures
        r@ == a@ + b@,
{
    let mut r = String::from_str(a);
    r.append(b);
    r
}

/// Concatenation of three texts.
pub fn concat3(a: &str, b: &str, c: &str) -> (r: String)
    ensures
        r@ == a@ + b@ + c@,
{
    let mut r = String::from_str(a);
    r.append(b);
    r.append(c);
    r
}

/// The decimal digit character for a value below ten.
pub open spec fn dec_digit(d: nat) -> char {
    if d == 0 {
        '0'
    } else if d == 1 {
        '1'
    } else if d == 2 {
        '2'
    } else if d == 3 {
        '3'
    } else if d == 4 {
        '4'
    } else if d == 5 {
        '5'
    } else if d == 6 {
        '6'
    } else if d == 7 {
        '7'
    } else if d == 8 {
        '8'
    } else {
        '9'
    }
}

/// The decimal representation of a number, without sign or padding.
pub open spec fn dec_rep(n: nat) -> Seq<char>
    decreases n,
{
    if n < 10 {
        seq![dec_digit(n)]
    } else {
        dec_rep(n / 10).push(dec_digit(n % 10))
    }
}

fn digit_str(d: u32) -> (r: &'static str)
    requires
        d < 10,
    ensures
        r@ == seq![dec_digit(d as nat)],
{
    proof {
        reveal_strlit("0");
        reveal_strlit("1");
        reveal_strlit("2");
        reveal_strlit("3");
        reveal_strlit("4");
        reveal_strlit("5");
        reveal_strlit("6");
        reveal_strlit("7");
        reveal_strlit("8");
        reveal_strlit("9");
    }
    let r = match d {
        0 => "0",
        1 => "1",
        2 => "2",
        3 => "3",
        4 => "4",
        5 => "5",
        6 => "6",
        7 => "7",
        8 => "8",
        _ => "9",
    };
    proof {
        assert(r@ =~= seq![dec_digit(d as nat)]);
    }
    r
}

/// Format a number in decimal.
pub fn u32_dec(n: u32) -> (r: String)
    ensures
        r@ == dec_rep(n as nat),
    decreases n,
{
    if n < 10 {
        digit_str(n).to_owned()
    } else {
        let mut s = u32_dec(n / 10);
        let d = digit_str(n % 10);
        s.append(d);
        proof {
            assert(s@ =~= dec_rep((n / 10) as nat).push(dec_digit((n % 10) as nat)));
        }
        s
    }
}

/// Format a wide number in decimal.
pub fn u64_dec(n: u64) -> (r: String)
    ensures
        r@ == dec_rep(n as nat),
    decreases n,
{
    if n < 10 {
        digit_str(n as u32).to_owned()
    } else {
        let mut s = u64_dec(n / 10);
        let d = digit_str((n % 10) as u32);
        s.append(d);
        proof {
            assert(s@ =~= dec_rep((n / 10) as nat).push(dec_digit((n % 10) as nat)));
        }
        s
    }
}

} // verus!
