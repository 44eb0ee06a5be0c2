//! Character-level scanning helpers for `&str` values: searching for a
//! character or a CRLF separator, equality of string slices, and trimming.
//! Each executable function is specified against a recursive spec function
//! over the string's view (a `Seq<char>`).

use vstd::prelude::*;

verus! {

/// True when a CRLF pair stands at position `i` of `s`.
pub open spec fn is_crlf_at(s: Seq<char>, i: int) -> bool {
    &&& 0 <= i
    &&& i + 2 <= s.len()
    &&& s[i] == '\r'
    &&& s[i + 1] == '\n'
}

/// True when two CRLF pairs in a row (a blank line separator) stand at
/// position `i` of `s`.
pub open spec fn is_crlfcrlf_at(s: Seq<char>, i: int) -> bool {
    is_crlf_at(s, i) && is_crlf_at(s, i + 2)
}

/// Position of the first occurrence of `c` in `s` at or after `i`.
pub open spec fn find_char_from(s: Seq<char>, c: char, i: int) -> Option<int>
    decreases s.len() - i,
{
    if i < 0 || i >= s.len() {
        None
    } else if s[i] == c {
        Some(i)
    } else {
        find_char_from(s, c, i + 1)
    }
}

/// Position of the first CRLF pair in `s` at or after `i`.
pub open spec fn find_crlf_from(s: Seq<char>, i: int) -> Option<int>
    decreases s.len() - i,
{
    if i < 0 || i + 2 > s.len() {
        None
    } else if is_crlf_at(s, i) {
        Some(i)
    } else {
        find_crlf_from(s, i + 1)
    }
}

/// Position of the first blank-line separator (CRLF CRLF) in `s` at or
/// after `i`.
pub open spec fn find_crlfcrlf_from(s: Seq<char>, i: int) -> Option<int>
    decreases s.len() - i,
{
    if i < 0 || i + 4 > s.len() {
        None
    } else if is_crlfcrlf_at(s, i) {
        Some(i)
    } else {
        find_crlfcrlf_from(s, i + 1)
    }
}

/// What a result of `find_char_from` means: the position found holds `c`,
/// nothing before it does, and a `None` says `c` does not occur at all.
pub proof fn lemma_find_char_from(s: Seq<char>, c: char, i: int)
    requires
        0 <= i,
    ensures
        match find_char_from(s, c, i) {
            Some(j) => i <= j < s.len() && s[j] == c && (forall|k: int|
                i <= k < j ==> s[k] != c),
            None => forall|k: int| i <= k < s.len() ==> s[k] != c,
        },
    decreases s.len() - i,
{
    if i < 0 || i >= s.len() {
    } else if s[i] == c {
    } else {
        lemma_find_char_from(s, c, i + 1);
    }
}

/// What a result of `find_crlf_from` means.
pub proof fn lemma_find_crlf_from(s: Seq<char>, i: int)
    requires
        0 <= i,
    ensures
        match find_crlf_from(s, i) {
            Some(j) => i <= j && j + 2 <= s.len() && is_crlf_at(s, j) && (forall|k: int|
                i <= k < j ==> !is_crlf_at(s, k)),
            None => forall|k: int| i <= k ==> !is_crlf_at(s, k),
        },
    decreases s.len() - i,
{
    if i < 0 || i + 2 > s.len() {
    } else if is_crlf_at(s, i) {
    } else {
        lemma_find_crlf_from(s, i + 1);
    }
}

/// What a result of `find_crlfcrlf_from` means.
pub proof fn lemma_find_crlfcrlf_from(s: Seq<char>, i: int)
    requires
        0 <= i,
    ensures
        match find_crlfcrlf_from(s, i) {
            Some(j) => i <= j && j + 4 <= s.len() && is_crlfcrlf_at(s, j) && (forall|k: int|
                i <= k < j ==> !is_crlfcrlf_at(s, k)),
            None => forall|k: int| i <= k ==> !is_crlfcrlf_at(s, k),
        },
    decreases s.len() - i,
{
    if i < 0 || i + 4 > s.len() {
    } else if is_crlfcrlf_at(s, i) {
    } else {
        lemma_find_crlfcrlf_from(s, i + 1);
    }
}

/// Finds the first occurrence of the character `c` in `s`.
pub fn find_char(s: &str, c: char) -> (r: Option<usize>)
    ensures
        match r {
            Some(j) => find_char_from(s@, c, 0) == Some(j as int),
            None => find_char_from(s@, c, 0) is None,
        },
{
    let n = s.unicode_len();
    let mut i: usize = 0;
    while i < n
        invariant
            n == s@.len(),
            0 <= i <= n,
            find_char_from(s@, c, 0) == find_char_from(s@, c, i as int),
        decreases n - i,
    {
        let ch = s.get_char(i);
        if ch == c {
            return Some(i);
        }
        proof {
            assert(find_char_from(s@, c, i as int) == find_char_from(s@, c, i as int + 1));
        }
        i = i + 1;
    }
    None
}

/// Finds the first CRLF pair in `s`.
pub fn find_crlf(s: &str) -> (r: Option<usize>)
    ensures
        match r {
            Some(j) => find_crlf_from(s@, 0) == Some(j as int),
            None => find_crlf_from(s@, 0) is None,
        },
{
    let n = s.unicode_len();
    if n < 2 {
        return None;
    }
    let mut i: usize = 0;
    while i <= n - 2
        invariant
            2 <= n == s@.len(),
            0 <= i <= n,
            find_crlf_from(s@, 0) == find_crlf_from(s@, i as int),
        decreases n - i,
    {
        if s.get_char(i) == '\r' && s.get_char(i + 1) == '\n' {
            return Some(i);
        }
        proof {
            assert(find_crlf_from(s@, i as int) == find_crlf_from(s@, i as int + 1));
        }
        i = i + 1;
    }
    None
}

/// Finds the first blank-line separator (CRLF CRLF) in `s`.
pub fn find_crlfcrlf(s: &str) -> (r: Option<usize>)
    ensures
        match r {
            Some(j) => find_crlfcrlf_from(s@, 0) == Some(j as int),
            None => find_crlfcrlf_from(s@, 0) is None,
        },
{
    let n = s.unicode_len();
    if n < 4 {
        return None;
    }
    let mut i: usize = 0;
    while i <= n - 4
        invariant
            4 <= n == s@.len(),
            0 <= i <= n,
            find_crlfcrlf_from(s@, 0) == find_crlfcrlf_from(s@, i as int),
        decreases n - i,
    {
        if s.get_char(i) == '\r' && s.get_char(i + 1) == '\n' && s.get_char(i + 2) == '\r'
            && s.get_char(i + 3) == '\n' {
            return Some(i);
        }
        proof {
            assert(find_crlfcrlf_from(s@, i as int) == find_crlfcrlf_from(s@, i as int + 1));
        }
        i = i + 1;
    }
    None
}

/// Equality of two string slices, decided character by character.
pub fn str_eq(a: &str, b: &str) -> (r: bool)
    ensures
        r == (a@ == b@),
{
    let an = a.unicode_len();
    let bn = b.unicode_len();
    if an != bn {
        return false;
    }
    let mut i: usize = 0;
    while i < an
        invariant
            an == a@.len(),
            bn == b@.len(),
            an == bn,
            0 <= i <= an,
            forall|k: int| 0 <= k < i ==> a@[k] == b@[k],
        decreases an - i,
    {
        if a.get_char(i) != b.get_char(i) {
            return false;
        }
        i = i + 1;
    }
    proof {
        assert(a@ =~= b@);
    }
    true
}

/// `s` with every trailing NUL character removed. A transport may hand the
/// parser a zero-padded buffer; this strips the padding.
pub open spec fn trim_trailing_nuls(s: Seq<char>) -> Seq<char>
    decreases s.len(),
{
    if s.len() > 0 && s.last() == '\0' {
        trim_trailing_nuls(s.drop_last())
    } else {
        s
    }
}

/// A prefix free of trailing NULs that is followed by NULs only is exactly
/// the trimmed string.
proof fn lemma_trim_trailing_nuls_at(s: Seq<char>, e: int)
    requires
        0 <= e <= s.len(),
        forall|k: int| e <= k < s.len() ==> s[k] == '\0',
        e == 0 || s[e - 1] != '\0',
    ensures
        trim_trailing_nuls(s) == s.take(e),
    decreases s.len(),
{
    if s.len() > 0 && s.last() == '\0' {
        assert(e < s.len());
        lemma_trim_trailing_nuls_at(s.drop_last(), e);
        assert(s.drop_last().take(e) =~= s.take(e));
    } else {
        assert(e == s.len());
        assert(s.take(e) =~= s);
    }
}

/// Strips trailing NUL padding from `s`.
pub fn trim_nuls(s: &str) -> (r: &str)
    ensures
        r@ == trim_trailing_nuls(s@),
{
    let n = s.unicode_len();
    let mut e: usize = n;
    while e > 0 && s.get_char(e - 1) == '\0'
        invariant
            n == s@.len(),
            0 <= e <= n,
            forall|k: int| e <= k < n ==> s@[k] == '\0',
        decreases e,
    {
        e = e - 1;
    }
    proof {
        lemma_trim_trailing_nuls_at(s@, e as int);
    }
    let r = s.substring_char(0, e);
    proof {
        assert(r@ =~= s@.take(e as int));
    }
    r
}

/// True of the characters trimmed away around a header value.
pub open spec fn is_ws(c: char) -> bool {
    c == ' ' || c == '\t'
}

/// `s` without leading spaces and tabs.
pub open spec fn trim_leading_ws(s: Seq<char>) -> Seq<char>
    decreases s.len(),
{
    if s.len() > 0 && is_ws(s[0]) {
        trim_leading_ws(s.skip(1))
    } else {
        s
    }
}

/// `s` without trailing spaces and tabs.
pub open spec fn trim_trailing_ws(s: Seq<char>) -> Seq<char>
    decreases s.len(),
{
    if s.len() > 0 && is_ws(s.last()) {
        trim_trailing_ws(s.drop_last())
    } else {
        s
    }
}

/// `s` without leading or trailing spaces and tabs.
pub open spec fn trim_ws(s: Seq<char>) -> Seq<char> {
    trim_trailing_ws(trim_leading_ws(s))
}

proof fn lemma_trim_leading_ws_at(s: Seq<char>, b: int)
    requires
        0 <= b <= s.len(),
        forall|k: int| 0 <= k < b ==> is_ws(s[k]),
        b == s.len() || !is_ws(s[b]),
    ensures
        trim_leading_ws(s) == s.skip(b),
    decreases s.len(),
{
    if s.len() > 0 && is_ws(s[0]) {
        assert(b > 0);
        lemma_trim_leading_ws_at(s.skip(1), b - 1);
        assert(s.skip(1).skip(b - 1) =~= s.skip(b));
    } else {
        assert(b == 0);
        assert(s.skip(0) =~= s);
    }
}

proof fn lemma_trim_trailing_ws_at(s: Seq<char>, e: int)
    requires
        0 <= e <= s.len(),
        forall|k: int| e <= k < s.len() ==> is_ws(s[k]),
        e == 0 || !is_ws(s[e - 1]),
    ensures
        trim_trailing_ws(s) == s.take(e),
    decreases s.len(),
{
    if s.len() > 0 && is_ws(s.last()) {
        assert(e < s.len());
        lemma_trim_trailing_ws_at(s.drop_last(), e);
        assert(s.drop_last().take(e) =~= s.take(e));
    } else {
        assert(e == s.len());
        assert(s.take(e) =~= s);
    }
}

/// Checks whether a character is trimmed around header values.
fn is_ws_exec(c: char) -> (r: bool)
    ensures
        r == is_ws(c),
{
    c == ' ' || c == '\t'
}

/// Strips leading and trailing spaces and tabs from `s`.
pub fn trim(s: &str) -> (r: &str)
    ensures
        r@ == trim_ws(s@),
{
    let n = s.unicode_len();
    let mut b: usize = 0;
    while b < n && is_ws_exec(s.get_char(b))
        invariant
            n == s@.len(),
            0 <= b <= n,
            forall|k: int| 0 <= k < b ==> is_ws(s@[k]),
        decreases n - b,
    {
        b = b + 1;
    }
    proof {
        lemma_trim_leading_ws_at(s@, b as int);
    }
    let mut e: usize = n;
    while e > b && is_ws_exec(s.get_char(e - 1))
        invariant
            n == s@.len(),
            b <= e <= n,
            forall|k: int| e <= k < n ==> is_ws(s@[k]),
        decreases e,
    {
        e = e - 1;
    }
    proof {
        let mid = s@.skip(b as int);
        assert(forall|k: int| 0 <= k < b ==> is_ws(s@[k]));
        if e > b {
            assert(!is_ws(s@[e - 1]));
        } else {
            // e == b: every character of s@ before b is whitespace and from e
            // on is whitespace, so mid is all whitespace.
        }
        lemma_trim_trailing_ws_at(mid, e as int - b as int);
        assert(mid.take(e as int - b as int) =~= s@.subrange(b as int, e as int));
    }
    let r = s.substring_char(b, e);
    proof {
        assert(r@ =~= s@.subrange(b as int, e as int));
    }
    r
}

} // verus!
