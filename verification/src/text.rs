//! Character-level string helpers with exact specifications.
//!
//! Strings are handled as sequences of `char`; every helper states its
//! result over `Seq<char>`.

use vstd::prelude::*;

verus! {

/// The characters of `s`, in order.
pub fn chars_of(s: &str) -> (res: Vec<char>)
    ensures
        res@ == s@,
{
    let mut out: Vec<char> = Vec::new();
    for c in it: s.chars()
        invariant
            out@ == it.seq().take(it.index() as int),
            it.seq() == s@,
    {
        out.push(c);
    }
    out
}

/// Builds a `String` from characters.
///
/// Calls `FromIterator<&char> for String` (std's `collect`), which appends
/// the characters in order; the contract states exactly that.
#[verifier::external_body]
pub(crate) fn string_from_chars(chars: &[char]) -> (res: String)
    ensures
        res@ == chars@,
{
    chars.iter().collect()
}

/// A `String` holding the characters `chars[start..end]`.
pub fn string_from_range(chars: &Vec<char>, start: usize, end: usize) -> (res: String)
    requires
        start <= end <= chars@.len(),
    ensures
        res@ == chars@.subrange(start as int, end as int),
{
    let mut part: Vec<char> = Vec::new();
    let mut i = start;
    while i < end
        invariant
            start <= i <= end <= chars@.len(),
            part@ == chars@.subrange(start as int, i as int),
        decreases end - i,
    {
        part.push(chars[i]);
        i += 1;
    }
    string_from_chars(part.as_slice())
}

/// A copy of `s`.
pub fn own(s: &str) -> (res: String)
    ensures
        res@ == s@,
{
    s.to_owned()
}

/// Concatenation of two strings.
pub fn concat(a: &str, b: &str) -> (res: String)
    ensures
        res@ == a@ + b@,
{
    let mut left = chars_of(a);
    let right = chars_of(b);
    let mut i: usize = 0;
    let ghost start = left@;
    while i < right.len()
        invariant
            i <= right@.len(),
            right@ == b@,
            start == a@,
            left@ == start + right@.take(i as int),
        decreases right@.len() - i,
    {
        left.push(right[i]);
        i += 1;
    }
    assert(right@.take(i as int) == right@);
    string_from_chars(left.as_slice())
}

/// Equality of the characters of two strings.
pub fn str_eq(a: &str, b: &str) -> (res: bool)
    ensures
        res == (a@ == b@),
{
    let x = chars_of(a);
    let y = chars_of(b);
    if x.len() != y.len() {
        return false;
    }
    let mut i: usize = 0;
    while i < x.len()
        invariant
            x@.len() == y@.len(),
            x@ == a@,
            y@ == b@,
            i <= x@.len(),
            forall|j: int| 0 <= j < i ==> x@[j] == y@[j],
        decreases x@.len() - i,
    {
        if x[i] != y[i] {
            assert(x@[i as int] != y@[i as int]);
            return false;
        }
        i += 1;
    }
    assert(x@ =~= y@);
    true
}

/// Unicode `White_Space`, the set that `char::is_whitespace` tests.
pub open spec fn is_ws(c: char) -> bool {
    ||| ('\u{9}' <= c && c <= '\u{d}')
    ||| c == ' '
    ||| c == '\u{85}'
    ||| c == '\u{a0}'
    ||| c == '\u{1680}'
    ||| ('\u{2000}' <= c && c <= '\u{200a}')
    ||| c == '\u{2028}'
    ||| c == '\u{2029}'
    ||| c == '\u{202f}'
    ||| c == '\u{205f}'
    ||| c == '\u{3000}'
}

/// Executable form of [`is_ws`].
pub fn is_whitespace(c: char) -> (res: bool)
    ensures
        res == is_ws(c),
{
    ('\u{9}' <= c && c <= '\u{d}') || c == ' ' || c == '\u{85}' || c == '\u{a0}'
        || c == '\u{1680}' || ('\u{2000}' <= c && c <= '\u{200a}') || c == '\u{2028}'
        || c == '\u{2029}' || c == '\u{202f}' || c == '\u{205f}' || c == '\u{3000}'
}

/// `s` without leading whitespace.
pub open spec fn trim_start_seq(s: Seq<char>) -> Seq<char>
    decreases s.len(),
{
    if s.len() > 0 && is_ws(s[0]) {
        trim_start_seq(s.drop_first())
    } else {
        s
    }
}

/// `s` without trailing whitespace.
pub open spec fn trim_end_seq(s: Seq<char>) -> Seq<char>
    decreases s.len(),
{
    if s.len() > 0 && is_ws(s.last()) {
        trim_end_seq(s.drop_last())
    } else {
        s
    }
}

/// `s` without leading and trailing whitespace, as `str::trim` gives it.
pub open spec fn trim_seq(s: Seq<char>) -> Seq<char> {
    trim_end_seq(trim_start_seq(s))
}

/// Index of the first non-whitespace character at or after `from`
/// (or `s.len()`).
fn skip_ws_forward(s: &Vec<char>, from: usize) -> (res: usize)
    requires
        from <= s@.len(),
    ensures
        from <= res <= s@.len(),
        trim_start_seq(s@.subrange(from as int, s@.len() as int))
            == s@.subrange(res as int, s@.len() as int),
{
    let mut i = from;
    while i < s.len() && is_whitespace(s[i])
        invariant
            from <= i <= s@.len(),
            trim_start_seq(s@.subrange(from as int, s@.len() as int))
                == trim_start_seq(s@.subrange(i as int, s@.len() as int)),
        decreases s@.len() - i,
    {
        assert(s@.subrange(i as int, s@.len() as int).drop_first()
            == s@.subrange(i + 1, s@.len() as int));
        i += 1;
    }
    i
}

/// One past the last non-whitespace character of `s[start..end]`
/// (or `start`).
fn skip_ws_backward(s: &Vec<char>, start: usize, end: usize) -> (res: usize)
    requires
        start <= end <= s@.len(),
    ensures
        start <= res <= end,
        trim_end_seq(s@.subrange(start as int, end as int)) == s@.subrange(
            start as int,
            res as int,
        ),
{
    let mut j = end;
    while j > start && is_whitespace(s[j - 1])
        invariant
            start <= j <= end <= s@.len(),
            trim_end_seq(s@.subrange(start as int, end as int)) == trim_end_seq(
                s@.subrange(start as int, j as int),
            ),
        decreases j - start,
    {
        assert(s@.subrange(start as int, j as int).drop_last() == s@.subrange(
            start as int,
            j - 1,
        ));
        j -= 1;
    }
    j
}

/// Bounds `(a, b)` such that `s[a..b]` is `s` trimmed.
pub fn trim_bounds(s: &Vec<char>) -> (res: (usize, usize))
    ensures
        res.0 <= res.1 <= s@.len(),
        trim_seq(s@) == s@.subrange(res.0 as int, res.1 as int),
{
    let a = skip_ws_forward(s, 0);
    assert(s@.subrange(0, s@.len() as int) == s@);
    let b = skip_ws_backward(s, a, s.len());
    (a, b)
}

/// `s` with leading and trailing whitespace removed (`str::trim`).
pub fn trim(s: &str) -> (res: String)
    ensures
        res@ == trim_seq(s@),
{
    let cs = chars_of(s);
    let (a, b) = trim_bounds(&cs);
    string_from_range(&cs, a, b)
}

/// `prefix` is a prefix of `s`.
pub open spec fn has_prefix(s: Seq<char>, prefix: Seq<char>) -> bool {
    prefix.len() <= s.len() && s.subrange(0, prefix.len() as int) == prefix
}

/// `s[from..]` starts with `prefix`.
pub fn starts_with_at(s: &Vec<char>, from: usize, prefix: &Vec<char>) -> (res: bool)
    requires
        from <= s@.len(),
    ensures
        res == has_prefix(s@.subrange(from as int, s@.len() as int), prefix@),
{
    if prefix.len() > s.len() - from {
        return false;
    }
    let mut i: usize = 0;
    while i < prefix.len()
        invariant
            prefix@.len() + from <= s.len(),
            i <= prefix@.len(),
            forall|j: int| 0 <= j < i ==> s@[from + j] == prefix@[j],
        decreases prefix@.len() - i,
    {
        if s[from + i] != prefix[i] {
            assert(s@.subrange(from as int, s@.len() as int).subrange(0, prefix@.len() as int)[i as int]
                != prefix@[i as int]);
            return false;
        }
        i += 1;
    }
    assert(s@.subrange(from as int, s@.len() as int).subrange(0, prefix@.len() as int) =~= prefix@);
    true
}

/// `s` starts with `prefix` (`str::starts_with`).
pub fn starts_with(s: &str, prefix: &str) -> (res: bool)
    ensures
        res == has_prefix(s@, prefix@),
{
    let cs = chars_of(s);
    let ps = chars_of(prefix);
    assert(cs@.subrange(0, cs@.len() as int) == cs@);
    starts_with_at(&cs, 0, &ps)
}

/// Index of the first occurrence of `c` in `s`.
pub open spec fn first_index_of(s: Seq<char>, c: char) -> Option<int>
    decreases s.len(),
{
    if s.len() == 0 {
        None
    } else if s[0] == c {
        Some(0)
    } else {
        match first_index_of(s.drop_first(), c) {
            Some(i) => Some(i + 1),
            None => None,
        }
    }
}

/// Index of the last occurrence of `c` in `s`.
pub open spec fn last_index_of(s: Seq<char>, c: char) -> Option<int>
    decreases s.len(),
{
    if s.len() == 0 {
        None
    } else if s.last() == c {
        Some(s.len() - 1)
    } else {
        last_index_of(s.drop_last(), c)
    }
}

pub proof fn lemma_first_index_of(s: Seq<char>, c: char)
    ensures
        match first_index_of(s, c) {
            Some(i) => 0 <= i < s.len() && s[i] == c && forall|j: int| 0 <= j < i ==> s[j] != c,
            None => forall|j: int| 0 <= j < s.len() ==> s[j] != c,
        },
    decreases s.len(),
{
    if s.len() > 0 && s[0] != c {
        lemma_first_index_of(s.drop_first(), c);
        match first_index_of(s.drop_first(), c) {
            Some(i) => {
                assert forall|j: int| 0 <= j < i + 1 implies s[j] != c by {
                    if j > 0 {
                        assert(s[j] == s.drop_first()[j - 1]);
                    }
                }
            },
            None => {
                assert forall|j: int| 0 <= j < s.len() implies s[j] != c by {
                    if j > 0 {
                        assert(s[j] == s.drop_first()[j - 1]);
                    }
                }
            },
        }
    }
}

pub proof fn lemma_last_index_of(s: Seq<char>, c: char)
    ensures
        match last_index_of(s, c) {
            Some(i) => 0 <= i < s.len() && s[i] == c && forall|j: int| i < j < s.len() ==> s[j]
                != c,
            None => forall|j: int| 0 <= j < s.len() ==> s[j] != c,
        },
    decreases s.len(),
{
    if s.len() > 0 && s.last() != c {
        lemma_last_index_of(s.drop_last(), c);
        match last_index_of(s.drop_last(), c) {
            Some(i) => {
                assert forall|j: int| i < j < s.len() implies s[j] != c by {
                    if j < s.len() - 1 {
                        assert(s[j] == s.drop_last()[j]);
                    }
                }
            },
            None => {
                assert forall|j: int| 0 <= j < s.len() implies s[j] != c by {
                    if j < s.len() - 1 {
                        assert(s[j] == s.drop_last()[j]);
                    }
                }
            },
        }
    }
}

/// The first index of `c` in `s` (`str::find` with a `char`, counted in
/// characters).
pub fn find_char(s: &Vec<char>, c: char) -> (res: Option<usize>)
    ensures
        match res {
            Some(i) => first_index_of(s@, c) == Some(i as int),
            None => first_index_of(s@, c) is None,
        },
{
    proof {
        lemma_first_index_of(s@, c);
    }
    let mut i: usize = 0;
    while i < s.len()
        invariant
            i <= s@.len(),
            forall|j: int| 0 <= j < i ==> s@[j] != c,
            match first_index_of(s@, c) {
                Some(k) => 0 <= k < s@.len() && s@[k] == c && forall|j: int| 0 <= j < k ==> s@[j] != c,
                None => forall|j: int| 0 <= j < s@.len() ==> s@[j] != c,
            },
        decreases s@.len() - i,
    {
        if s[i] == c {
            return Some(i);
        }
        i += 1;
    }
    None
}

/// The last index of `c` in `s` (`str::rfind` with a `char`, counted in
/// characters).
pub fn rfind_char(s: &Vec<char>, c: char) -> (res: Option<usize>)
    ensures
        match res {
            Some(i) => last_index_of(s@, c) == Some(i as int),
            None => last_index_of(s@, c) is None,
        },
{
    proof {
        lemma_last_index_of(s@, c);
    }
    let mut i: usize = s.len();
    while i > 0
        invariant
            i <= s@.len(),
            forall|j: int| i <= j < s@.len() ==> s@[j] != c,
            match last_index_of(s@, c) {
                Some(k) => 0 <= k < s@.len() && s@[k] == c && forall|j: int| k < j < s@.len() ==> s@[j] != c,
                None => forall|j: int| 0 <= j < s@.len() ==> s@[j] != c,
            },
        decreases i,
    {
        if s[i - 1] == c {
            return Some(i - 1);
        }
        i -= 1;
    }
    None
}


/// The first index at or after `from` where `c` occurs, as an offset into
/// the whole sequence.
pub fn find_char_from(s: &Vec<char>, c: char, from: usize) -> (res: Option<usize>)
    requires
        from <= s@.len(),
    ensures
        match res {
            Some(i) => from <= i < s@.len() && first_index_of(
                s@.subrange(from as int, s@.len() as int),
                c,
            ) == Some(i - from),
            None => first_index_of(s@.subrange(from as int, s@.len() as int), c) is None,
        },
{
    let ghost rest = s@.subrange(from as int, s@.len() as int);
    proof {
        lemma_first_index_of(rest, c);
    }
    let mut i: usize = from;
    while i < s.len()
        invariant
            from <= i <= s@.len(),
            rest == s@.subrange(from as int, s@.len() as int),
            forall|j: int| from <= j < i ==> s@[j] != c,
            match first_index_of(rest, c) {
                Some(k) => 0 <= k < rest.len() && rest[k] == c && forall|j: int|
                    0 <= j < k ==> rest[j] != c,
                None => forall|j: int| 0 <= j < rest.len() ==> rest[j] != c,
            },
        decreases s@.len() - i,
    {
        if s[i] == c {
            proof {
                match first_index_of(rest, c) {
                    Some(k) => {
                        assert(rest[i - from] == c);
                        if k > i - from {
                            assert(false);
                        }
                        if k < i - from {
                            assert(rest[k] == s@[from + k]);
                        }
                    },
                    None => {
                        assert(rest[i - from] == c);
                    },
                }
            }
            return Some(i);
        }
        i += 1;
    }
    proof {
        match first_index_of(rest, c) {
            Some(k) => {
                assert(rest[k] == s@[from + k]);
            },
            None => {},
        }
    }
    None
}

/// `s` without one trailing carriage return.
pub open spec fn strip_cr(s: Seq<char>) -> Seq<char> {
    if s.len() > 0 && s.last() == '\r' {
        s.drop_last()
    } else {
        s
    }
}

/// The lines of `s` as `str::lines` yields them: split at `'\n'`, a `'\r'`
/// before the `'\n'` dropped, no final empty line.
pub open spec fn lines_seq(s: Seq<char>) -> Seq<Seq<char>>
    decreases s.len(),
{
    if s.len() == 0 {
        seq![]
    } else {
        match first_index_of(s, '\n') {
            Some(i) => {
                proof {
                    lemma_first_index_of(s, '\n');
                }
                seq![strip_cr(s.subrange(0, i))] + lines_seq(s.subrange(i + 1, s.len() as int))
            },
            None => seq![s],
        }
    }
}

/// The views of a vector of strings.
pub open spec fn views(v: Seq<String>) -> Seq<Seq<char>> {
    v.map_values(|x: String| x@)
}

/// The lines of `s` (`str::lines`).
pub fn lines(s: &str) -> (res: Vec<String>)
    ensures
        views(res@) == lines_seq(s@),
{
    let cs = chars_of(s);
    let mut out: Vec<String> = Vec::new();
    let mut start: usize = 0;
    assert(cs@.subrange(0, cs@.len() as int) == cs@);
    assert(views(out@) == Seq::<Seq<char>>::empty());
    while start < cs.len()
        invariant
            start <= cs@.len(),
            cs@ == s@,
            lines_seq(s@) == views(out@) + lines_seq(cs@.subrange(start as int, cs@.len() as int)),
        decreases cs@.len() - start,
    {
        let ghost rest = cs@.subrange(start as int, cs@.len() as int);
        match find_char_from(&cs, '\n', start) {
            Some(i) => {
                let mut end = i;
                if end > start && cs[end - 1] == '\r' {
                    end = end - 1;
                }
                let line = string_from_range(&cs, start, end);
                proof {
                    let k = (i - start) as int;
                    assert(rest.subrange(0, k) == cs@.subrange(start as int, i as int));
                    assert(rest.subrange(k + 1, rest.len() as int) == cs@.subrange(
                        i + 1,
                        cs@.len() as int,
                    ));
                    assert(strip_cr(rest.subrange(0, k)) == line@);
                    assert(views(out@.push(line)) == views(out@).push(line@));
                    assert(lines_seq(rest) == seq![line@] + lines_seq(
                        cs@.subrange(i + 1, cs@.len() as int),
                    ));
                }
                out.push(line);
                start = i + 1;
            },
            None => {
                let line = string_from_range(&cs, start, cs.len());
                proof {
                    assert(views(out@.push(line)) == views(out@).push(line@));
                    assert(cs@.subrange(cs@.len() as int, cs@.len() as int) == Seq::<char>::empty());
                }
                out.push(line);
                start = cs.len();
            },
        }
    }
    proof {
        assert(cs@.subrange(start as int, cs@.len() as int) == Seq::<char>::empty());
    }
    out
}

/// `pat` occurs in `s` at index `i`.
pub open spec fn occurs_at(s: Seq<char>, i: int, pat: Seq<char>) -> bool {
    0 <= i && i + pat.len() <= s.len() && s.subrange(i, i + pat.len()) == pat
}

/// Index of the leftmost occurrence of `pat` in `s`.
pub open spec fn find_seq(s: Seq<char>, pat: Seq<char>) -> Option<int>
    decreases s.len(),
{
    if s.len() < pat.len() {
        None
    } else if s.subrange(0, pat.len() as int) == pat {
        Some(0)
    } else if s.len() == 0 {
        None
    } else {
        match find_seq(s.drop_first(), pat) {
            Some(i) => Some(i + 1),
            None => None,
        }
    }
}

pub proof fn lemma_find_seq(s: Seq<char>, pat: Seq<char>)
    ensures
        match find_seq(s, pat) {
            Some(i) => occurs_at(s, i, pat) && forall|j: int| 0 <= j < i ==> !occurs_at(s, j, pat),
            None => forall|j: int| !occurs_at(s, j, pat),
        },
    decreases s.len(),
{
    if s.len() < pat.len() {
    } else if s.subrange(0, pat.len() as int) == pat {
    } else if s.len() == 0 {
    } else {
        lemma_find_seq(s.drop_first(), pat);
        let t = s.drop_first();
        assert forall|j: int| 1 <= j implies occurs_at(s, j, pat) == occurs_at(t, j - 1, pat) by {
            if j + pat.len() <= s.len() {
                assert(s.subrange(j, j + pat.len()) == t.subrange(j - 1, j - 1 + pat.len()));
            }
        }
    }
}

/// `pat` occurs in `s`.
pub open spec fn contains_seq(s: Seq<char>, pat: Seq<char>) -> bool {
    find_seq(s, pat) is Some
}

/// Leftmost occurrence of `pat` in `s` at or after `from`.
pub fn find_from(s: &Vec<char>, pat: &Vec<char>, from: usize) -> (res: Option<usize>)
    requires
        from <= s@.len(),
    ensures
        match res {
            Some(i) => from <= i && occurs_at(s@, i as int, pat@) && find_seq(
                s@.subrange(from as int, s@.len() as int),
                pat@,
            ) == Some(i - from),
            None => find_seq(s@.subrange(from as int, s@.len() as int), pat@) is None,
        },
{
    let ghost rest = s@.subrange(from as int, s@.len() as int);
    proof {
        lemma_find_seq(rest, pat@);
    }
    let mut i: usize = from;
    while i <= s.len()
        invariant
            from <= i,
            i <= s@.len() + 1,
            rest == s@.subrange(from as int, s@.len() as int),
            forall|j: int| 0 <= j < i - from ==> !occurs_at(rest, j, pat@),
            match find_seq(rest, pat@) {
                Some(k) => occurs_at(rest, k, pat@) && forall|j: int|
                    0 <= j < k ==> !occurs_at(rest, j, pat@),
                None => forall|j: int| !occurs_at(rest, j, pat@),
            },
        decreases s@.len() + 1 - i,
    {
        if starts_with_at(s, i, pat) {
            proof {
                let k = i - from;
                assert(s@.subrange(i as int, s@.len() as int).subrange(0, pat@.len() as int)
                    == rest.subrange(k, k + pat@.len()));
                assert(occurs_at(rest, k, pat@));
                assert(s@.subrange(i as int, i + pat@.len()) == s@.subrange(i as int, s@.len() as int).subrange(0, pat@.len() as int));
                match find_seq(rest, pat@) {
                    Some(m) => {
                        if m > k {
                            assert(false);
                        }
                    },
                    None => {},
                }
            }
            return Some(i);
        }
        proof {
            let k = i - from;
            if k + pat@.len() <= rest.len() {
                assert(s@.subrange(i as int, s@.len() as int).subrange(0, pat@.len() as int)
                    == rest.subrange(k, k + pat@.len()));
            }
        }
        if i == s.len() {
            return None;
        }
        i += 1;
    }
    None
}

/// `pat` occurs in `s` (`str::contains` with a `&str`).
pub fn contains(s: &str, pat: &str) -> (res: bool)
    ensures
        res == contains_seq(s@, pat@),
{
    let cs = chars_of(s);
    let ps = chars_of(pat);
    assert(cs@.subrange(0, cs@.len() as int) == cs@);
    find_from(&cs, &ps, 0).is_some()
}

/// The pieces of `s` split at the non-overlapping leftmost occurrences of a
/// non-empty `pat` (`str::split` with a `&str`).
pub open spec fn split_seq(s: Seq<char>, pat: Seq<char>) -> Seq<Seq<char>>
    decreases s.len(),
{
    match find_seq(s, pat) {
        Some(i) => {
            proof {
                lemma_find_seq(s, pat);
            }
            if pat.len() > 0 {
                seq![s.subrange(0, i)] + split_seq(s.subrange(i + pat.len(), s.len() as int), pat)
            } else {
                seq![s]
            }
        },
        None => seq![s],
    }
}

/// `s` split at each occurrence of the non-empty `pat`.
pub fn split_str(s: &str, pat: &str) -> (res: Vec<String>)
    requires
        pat@.len() > 0,
    ensures
        views(res@) == split_seq(s@, pat@),
{
    let cs = chars_of(s);
    let ps = chars_of(pat);
    let mut out: Vec<String> = Vec::new();
    let mut start: usize = 0;
    assert(cs@.subrange(0, cs@.len() as int) == cs@);
    assert(views(out@) == Seq::<Seq<char>>::empty());
    loop
        invariant
            start <= cs@.len(),
            cs@ == s@,
            ps@ == pat@,
            ps@.len() > 0,
            split_seq(s@, pat@) == views(out@) + split_seq(
                cs@.subrange(start as int, cs@.len() as int),
                pat@,
            ),
        decreases cs@.len() - start,
    {
        let ghost rest = cs@.subrange(start as int, cs@.len() as int);
        proof {
            lemma_find_seq(rest, pat@);
        }
        match find_from(&cs, &ps, start) {
            Some(i) => {
                let piece = string_from_range(&cs, start, i);
                proof {
                    let k = (i - start) as int;
                    assert(rest.subrange(0, k) == piece@);
                    assert(rest.subrange(k + pat@.len(), rest.len() as int) == cs@.subrange(
                        i + pat@.len(),
                        cs@.len() as int,
                    ));
                    assert(views(out@.push(piece)) == views(out@).push(piece@));
                }
                assert(occurs_at(cs@, i as int, ps@));
                assert(i + ps@.len() <= cs@.len());
                let total = cs.len();
                assert(i + ps@.len() <= total);
                out.push(piece);
                start = i + ps.len();
            },
            None => {
                let piece = string_from_range(&cs, start, cs.len());
                proof {
                    assert(views(out@.push(piece)) == views(out@).push(piece@));
                }
                out.push(piece);
                return out;
            },
        }
    }
}


/// `s` with every occurrence of `pat` replaced by `to`, as `str::replace`
/// does: leftmost non-overlapping matches for a non-empty pattern; for an
/// empty pattern `to` is put before every character and at the end.
pub open spec fn replace_seq(s: Seq<char>, pat: Seq<char>, to: Seq<char>) -> Seq<char>
    decreases s.len(),
{
    if pat.len() == 0 {
        if s.len() == 0 {
            to
        } else {
            to + seq![s[0]] + replace_seq(s.drop_first(), pat, to)
        }
    } else {
        match find_seq(s, pat) {
            Some(i) => {
                proof {
                    lemma_find_seq(s, pat);
                }
                s.subrange(0, i) + to + replace_seq(s.subrange(i + pat.len(), s.len() as int), pat, to)
            },
            None => s,
        }
    }
}

/// `s` with every occurrence of `pat` replaced by `to` (`str::replace`).
pub fn replace(s: &str, pat: &str, to: &str) -> (res: String)
    ensures
        res@ == replace_seq(s@, pat@, to@),
{
    let cs = chars_of(s);
    let ps = chars_of(pat);
    let ts = chars_of(to);
    let total = cs.len();
    let mut out: Vec<char> = Vec::new();
    let mut start: usize = 0;
    assert(cs@.subrange(0, cs@.len() as int) == cs@);
    loop
        invariant
            start <= cs@.len(),
            total == cs@.len(),
            cs@ == s@,
            ps@ == pat@,
            ts@ == to@,
            replace_seq(s@, pat@, to@) == out@ + replace_seq(
                cs@.subrange(start as int, cs@.len() as int),
                pat@,
                to@,
            ),
        decreases cs@.len() - start,
    {
        let ghost rest = cs@.subrange(start as int, cs@.len() as int);
        let ghost before = out@;
        if ps.len() == 0 {
            let mut k: usize = 0;
            while k < ts.len()
                invariant
                    k <= ts@.len(),
                    out@ == before + ts@.take(k as int),
                decreases ts@.len() - k,
            {
                out.push(ts[k]);
                k += 1;
            }
            assert(ts@.take(ts@.len() as int) == ts@);
            if start == total {
                return string_from_chars(out.as_slice());
            }
            out.push(cs[start]);
            proof {
                assert(rest.drop_first() == cs@.subrange(start + 1, cs@.len() as int));
                assert(rest[0] == cs@[start as int]);
            }
            start += 1;
        } else {
            proof {
                lemma_find_seq(rest, pat@);
            }
            match find_from(&cs, &ps, start) {
                Some(i) => {
                    let mut k: usize = start;
                    while k < i
                        invariant
                            start <= k <= i <= cs@.len(),
                            out@ == before + cs@.subrange(start as int, k as int),
                        decreases i - k,
                    {
                        out.push(cs[k]);
                        k += 1;
                    }
                    let ghost mid = out@;
                    let mut m: usize = 0;
                    while m < ts.len()
                        invariant
                            m <= ts@.len(),
                            out@ == mid + ts@.take(m as int),
                        decreases ts@.len() - m,
                    {
                        out.push(ts[m]);
                        m += 1;
                    }
                    assert(ts@.take(ts@.len() as int) == ts@);
                    assert(occurs_at(cs@, i as int, ps@));
                    proof {
                        let j = (i - start) as int;
                        assert(rest.subrange(0, j) == cs@.subrange(start as int, i as int));
                        assert(rest.subrange(j + pat@.len(), rest.len() as int) == cs@.subrange(
                            i + pat@.len(),
                            cs@.len() as int,
                        ));
                    }
                    start = i + ps.len();
                },
                None => {
                    let mut k: usize = start;
                    while k < total
                        invariant
                            start <= k <= total,
                            total == cs@.len(),
                            out@ == before + cs@.subrange(start as int, k as int),
                        decreases total - k,
                    {
                        out.push(cs[k]);
                        k += 1;
                    }
                    return string_from_chars(out.as_slice());
                },
            }
        }
    }
}

/// The decimal digit character for `d < 10`.
pub open spec fn digit_char(d: nat) -> char {
    (('0' as nat) + d) as char
}

/// Decimal representation of `n`, as `to_string` gives it for an unsigned
/// integer.
pub open spec fn decimal_seq(n: nat) -> Seq<char>
    decreases n,
{
    if n < 10 {
        seq![digit_char(n)]
    } else {
        decimal_seq(n / 10).push(digit_char(n % 10))
    }
}

fn digit(d: usize) -> (c: char)
    requires
        d < 10,
    ensures
        c == digit_char(d as nat),
{
    let digits: [char; 10] = ['0', '1', '2', '3', '4', '5', '6', '7', '8', '9'];
    assert(digits@ == seq!['0', '1', '2', '3', '4', '5', '6', '7', '8', '9']);
    digits[d]
}

/// Decimal representation of `n`.
pub fn decimal(n: usize) -> (res: String)
    ensures
        res@ == decimal_seq(n as nat),
{
    let mut rev: Vec<char> = Vec::new();
    let mut m = n;
    rev.push(digit(m % 10));
    m = m / 10;
    proof {
        assert(decimal_seq(n as nat) == decimal_seq((n / 10) as nat).push(digit_char((n % 10) as nat))
            || n < 10);
    }
    while m > 0
        invariant
            rev@.len() >= 1,
            decimal_seq(n as nat) == (if m == 0 { seq![] } else { decimal_seq(m as nat) })
                + rev@.reverse(),
        decreases m,
    {
        let ghost old_rev = rev@;
        rev.push(digit(m % 10));
        proof {
            assert(rev@.reverse() == seq![digit_char((m % 10) as nat)] + old_rev.reverse());
            if m >= 10 {
                assert(decimal_seq(m as nat) == decimal_seq((m / 10) as nat).push(
                    digit_char((m % 10) as nat),
                ));
            }
        }
        m = m / 10;
    }
    let mut out: Vec<char> = Vec::new();
    let mut i = rev.len();
    while i > 0
        invariant
            i <= rev@.len(),
            out@ == rev@.reverse().take((rev@.len() - i) as int),
        decreases i,
    {
        i -= 1;
        out.push(rev[i]);
        proof {
            assert(rev@.reverse()[(rev@.len() - i - 1) as int] == rev@[i as int]);
            assert(rev@.reverse().take((rev@.len() - i) as int) == rev@.reverse().take(
                (rev@.len() - i - 1) as int,
            ).push(rev@[i as int]));
        }
    }
    assert(rev@.reverse().take(rev@.len() as int) == rev@.reverse());
    string_from_chars(out.as_slice())
}

/// `c` is an ASCII decimal digit.
pub open spec fn is_digit(c: char) -> bool {
    '0' <= c && c <= '9'
}

/// Every character of `s` is a decimal digit.
pub open spec fn all_digits(s: Seq<char>) -> bool {
    forall|i: int| 0 <= i < s.len() ==> is_digit(s[i])
}

/// The value of a sequence of decimal digits.
pub open spec fn digits_value(s: Seq<char>) -> nat
    decreases s.len(),
{
    if s.len() == 0 {
        0
    } else {
        digits_value(s.drop_last()) * 10 + ((s.last() as nat) - ('0' as nat)) as nat
    }
}

/// `s` parsed as a `usize` the way `str::parse::<usize>` does: an optional
/// `'+'`, then one or more decimal digits, the value at most `usize::MAX`.
pub open spec fn parse_usize_seq(s: Seq<char>) -> Option<nat> {
    let ds = if s.len() > 0 && s[0] == '+' {
        s.drop_first()
    } else {
        s
    };
    if ds.len() > 0 && all_digits(ds) && digits_value(ds) <= usize::MAX {
        Some(digits_value(ds))
    } else {
        None
    }
}

proof fn lemma_digits_value_grows(s: Seq<char>, i: int)
    requires
        0 <= i <= s.len(),
        forall|k: int| 0 <= k < s.len() ==> is_digit(s[k]),
    ensures
        digits_value(s.take(i)) <= digits_value(s),
    decreases s.len() - i,
{
    if i < s.len() {
        lemma_digits_value_grows(s, i + 1);
        assert(s.take(i + 1).drop_last() == s.take(i));
    } else {
        assert(s.take(i) == s);
    }
}

/// `s` parsed as a `usize` (`str::parse::<usize>().ok()`).
pub fn parse_usize(s: &str) -> (res: Option<usize>)
    ensures
        match res {
            Some(v) => parse_usize_seq(s@) == Some(v as nat),
            None => parse_usize_seq(s@) is None,
        },
{
    let cs = chars_of(s);
    let mut i: usize = 0;
    if cs.len() > 0 && cs[0] == '+' {
        i = 1;
    }
    let ghost ds = if s@.len() > 0 && s@[0] == '+' {
        s@.drop_first()
    } else {
        s@
    };
    assert(ds == cs@.subrange(i as int, cs@.len() as int));
    if i >= cs.len() {
        return None;
    }
    let start = i;
    let mut acc: usize = 0;
    while i < cs.len()
        invariant
            start <= i <= cs@.len(),
            cs@ == s@,
            ds == (if s@.len() > 0 && s@[0] == '+' {
                s@.drop_first()
            } else {
                s@
            }),
            ds == cs@.subrange(start as int, cs@.len() as int),
            forall|k: int| start <= k < i ==> is_digit(cs@[k]),
            acc as nat == digits_value(ds.take(i - start)),
        decreases cs@.len() - i,
    {
        let c = cs[i];
        if !('0' <= c && c <= '9') {
            proof {
                assert(!is_digit(ds[i - start]));
                assert(!all_digits(ds));
                assert(parse_usize_seq(s@) is None);
            }
            return None;
        }
        let d = (c as u32 - '0' as u32) as usize;
        proof {
            assert(ds.take(i - start + 1).drop_last() == ds.take(i - start));
            assert(ds.take(i - start + 1).last() == c);
        }
        if acc > (usize::MAX - d) / 10 {
            proof {
                assert(acc * 10 + d > usize::MAX) by (nonlinear_arith)
                    requires
                        acc > (usize::MAX - d) / 10,
                        d < 10,
                ;
                assert(digits_value(ds.take(i - start + 1)) == acc * 10 + d);
                if all_digits(ds) {
                    lemma_digits_value_grows(ds, i - start + 1);
                    assert(digits_value(ds) > usize::MAX);
                }
            }
            return None;
        }
        proof {
            assert(acc * 10 + d <= usize::MAX) by (nonlinear_arith)
                requires
                    acc <= (usize::MAX - d) / 10,
                    d < 10,
            ;
        }
        acc = acc * 10 + d;
        i += 1;
    }
    assert(ds.take(i - start) == ds);
    Some(acc)
}


/// The decimal form of a number is a non-empty run of digits whose value is
/// the number.
pub proof fn lemma_decimal_digits(n: nat)
    ensures
        decimal_seq(n).len() > 0,
        all_digits(decimal_seq(n)),
        digits_value(decimal_seq(n)) == n,
    decreases n,
{
    let k = n % 10;
    assert(('0' as nat) == 48);
    assert((digit_char(k) as nat) == 48 + k);
    if n < 10 {
        assert(digits_value(decimal_seq(n)) == digits_value(seq![digit_char(n)]));
        assert(seq![digit_char(n)].drop_last() =~= Seq::<char>::empty());
        assert(digits_value(Seq::<char>::empty()) == 0);
        assert(n % 10 == n);
        assert(digits_value(seq![digit_char(n)]) == digits_value(Seq::<char>::empty()) * 10 + ((digit_char(n) as nat) - ('0' as nat)) as nat);
    }
    if n >= 10 {
        lemma_decimal_digits(n / 10);
        let d = decimal_seq(n / 10);
        let s = d.push(digit_char(n % 10));
        assert(s.drop_last() =~= d);
        assert(n == (n / 10) * 10 + k);
        assert(decimal_seq(n) == s);
        assert(s.last() == digit_char(k));
        assert(digits_value(s) == digits_value(d) * 10 + ((s.last() as nat) - ('0' as nat)) as nat);
        assert forall|i: int| 0 <= i < s.len() implies is_digit(s[i]) by {
            if i < d.len() {
                assert(s[i] == d[i]);
            }
        }
    }
}

} // verus!
