//! Character-level text utilities.
//!
//! Documents are sequences of Unicode scalar values, and every offset in this
//! crate counts characters. The helpers here work on `Vec<char>` buffers and
//! state their results over `Seq<char>`.
use vstd::prelude::*;

verus! {

pub assume_specification[ std::string::String::push ](s: &mut std::string::String, ch: char)
    ensures
        final(s)@ == old(s)@.push(ch),
;

pub assume_specification[ std::string::String::push_str ](
    s: &mut std::string::String,
    string: &str,
)
    ensures
        final(s)@ == old(s)@ + string@,
;

/// The characters with the Unicode `White_Space` property.
pub open spec fn is_whitespace(c: char) -> bool {
    let n = c as u32;
    (0x09 <= n && n <= 0x0D) || n == 0x20 || n == 0x85 || n == 0xA0 || n == 0x1680 || (0x2000 <= n
        && n <= 0x200A) || n == 0x2028 || n == 0x2029 || n == 0x202F || n == 0x205F || n == 0x3000
}

pub fn char_is_whitespace(c: char) -> (b: bool)
    ensures
        b == is_whitespace(c),
{
    let n: u32 = c as u32;
    (0x09 <= n && n <= 0x0D) || n == 0x20 || n == 0x85 || n == 0xA0 || n == 0x1680 || (0x2000 <= n
        && n <= 0x200A) || n == 0x2028 || n == 0x2029 || n == 0x202F || n == 0x205F || n == 0x3000
}

/// ASCII letters, ASCII digits and the underscore.
pub open spec fn is_word_char(c: char) -> bool {
    ('a' <= c && c <= 'z') || ('A' <= c && c <= 'Z') || ('0' <= c && c <= '9') || c == '_'
}

pub fn char_is_word(c: char) -> (b: bool)
    ensures
        b == is_word_char(c),
{
    (c >= 'a' && c <= 'z') || (c >= 'A' && c <= 'Z') || (c >= '0' && c <= '9') || c == '_'
}

pub open spec fn is_ascii_upper(c: char) -> bool {
    'A' <= c && c <= 'Z'
}

/// The lower-case form of an ASCII upper-case letter; every other character is unchanged.
pub open spec fn ascii_lower(c: char) -> char {
    if is_ascii_upper(c) {
        ((c as u32 + 32) as u8) as char
    } else {
        c
    }
}

pub fn char_ascii_lower(c: char) -> (r: char)
    ensures
        r == ascii_lower(c),
{
    if c >= 'A' && c <= 'Z' {
        let n: u32 = c as u32;
        let m: u32 = n + 32;
        m as u8 as char
    } else {
        c
    }
}

pub open spec fn as_int(o: Option<usize>) -> Option<int> {
    match o {
        Some(v) => Some(v as int),
        None => None,
    }
}

/// The characters of a string slice, in order.
pub fn chars_of(s: &str) -> (v: Vec<char>)
    ensures
        v@ == s@,
{
    let mut v: Vec<char> = Vec::new();
    for c in it: s.chars()
        invariant
            it.seq() == s@,
            v@ == s@.take(it.index() as int),
    {
        v.push(c);
    }
    v
}

/// The string spelled by a character buffer.
pub fn string_of(v: &Vec<char>) -> (s: String)
    ensures
        s@ == v@,
{
    let mut s = String::new();
    let mut i: usize = 0;
    while i < v.len()
        invariant
            i <= v.len(),
            s@ == v@.take(i as int),
        decreases v.len() - i,
    {
        s.push(v[i]);
        i += 1;
    }
    s
}

pub fn str_eq(a: &str, b: &str) -> (r: bool)
    ensures
        r == (a@ == b@),
{
    let x = chars_of(a);
    let y = chars_of(b);
    chars_eq(&x, &y)
}

pub fn chars_eq(a: &Vec<char>, b: &Vec<char>) -> (r: bool)
    ensures
        r == (a@ == b@),
{
    if a.len() != b.len() {
        return false;
    }
    let mut i: usize = 0;
    while i < a.len()
        invariant
            a.len() == b.len(),
            i <= a.len(),
            forall|k: int| 0 <= k < i ==> a@[k] == b@[k],
        decreases a.len() - i,
    {
        if a[i] != b[i] {
            return false;
        }
        i += 1;
    }
    assert(a@ =~= b@);
    true
}

/// A copy of `v[start..end]`.
pub fn subvec(v: &Vec<char>, start: usize, end: usize) -> (r: Vec<char>)
    requires
        start <= end <= v.len(),
    ensures
        r@ == v@.subrange(start as int, end as int),
{
    let mut r: Vec<char> = Vec::new();
    let mut i: usize = start;
    while i < end
        invariant
            start <= i <= end <= v.len(),
            r@ == v@.subrange(start as int, i as int),
        decreases end - i,
    {
        r.push(v[i]);
        i += 1;
    }
    r
}

/// Appends the characters of `src` to `dst`.
pub fn push_chars(dst: &mut Vec<char>, src: &Vec<char>)
    ensures
        final(dst)@ == old(dst)@ + src@,
{
    let mut i: usize = 0;
    while i < src.len()
        invariant
            i <= src.len(),
            dst@ == old(dst)@ + src@.take(i as int),
        decreases src.len() - i,
    {
        dst.push(src[i]);
        i += 1;
    }
    assert(src@.take(src.len() as int) =~= src@);
}

/// Appends the characters of a string slice to `dst`.
pub fn push_str_chars(dst: &mut Vec<char>, src: &str)
    ensures
        final(dst)@ == old(dst)@ + src@,
{
    let v = chars_of(src);
    push_chars(dst, &v);
}

/// Whether `needle` occurs in `hay` starting at index `i`.
pub open spec fn matches_at(hay: Seq<char>, needle: Seq<char>, i: int) -> bool {
    0 <= i && i + needle.len() <= hay.len() && hay.subrange(i, i + needle.len()) == needle
}

pub fn has_match_at(hay: &Vec<char>, needle: &Vec<char>, i: usize) -> (b: bool)
    ensures
        b == matches_at(hay@, needle@, i as int),
{
    let n = needle.len();
    if n > hay.len() || i > hay.len() - n {
        return false;
    }
    let mut k: usize = 0;
    while k < n
        invariant
            n == needle.len(),
            i + n <= hay.len(),
            k <= n,
            forall|j: int| 0 <= j < k ==> hay@[i + j] == needle@[j],
        decreases n - k,
    {
        if hay[i + k] != needle[k] {
            assert(hay@.subrange(i as int, i + n)[k as int] == hay@[i + k]);
            return false;
        }
        k += 1;
    }
    assert(hay@.subrange(i as int, i + n) =~= needle@);
    true
}

pub open spec fn is_first_match(hay: Seq<char>, needle: Seq<char>, i: int) -> bool {
    matches_at(hay, needle, i) && forall|j: int| 0 <= j < i ==> !matches_at(hay, needle, j)
}

/// The index of the first occurrence of `needle` in `hay`.
pub open spec fn first_match(hay: Seq<char>, needle: Seq<char>) -> Option<int> {
    if exists|i: int| is_first_match(hay, needle, i) {
        Some(choose|i: int| is_first_match(hay, needle, i))
    } else {
        None
    }
}

/// An index that is a first occurrence is the first occurrence.
pub proof fn lemma_first_match_is(hay: Seq<char>, needle: Seq<char>, i: int)
    requires
        is_first_match(hay, needle, i),
    ensures
        first_match(hay, needle) == Some(i),
{
    let c = choose|c: int| is_first_match(hay, needle, c);
    if c < i {
        assert(!matches_at(hay, needle, c));
    } else if i < c {
        assert(!matches_at(hay, needle, i));
    }
}

/// Where the needle occurs nowhere, there is no first occurrence.
pub proof fn lemma_first_match_none(hay: Seq<char>, needle: Seq<char>)
    requires
        forall|j: int| !matches_at(hay, needle, j),
    ensures
        first_match(hay, needle) is None,
{
}

pub fn find_first(hay: &Vec<char>, needle: &Vec<char>) -> (r: Option<usize>)
    ensures
        as_int(r) == first_match(hay@, needle@),
        r matches Some(i) ==> is_first_match(hay@, needle@, i as int),
{
    let n = needle.len();
    let h = hay.len();
    if n > h {
        proof {
            lemma_first_match_none(hay@, needle@);
        }
        return None;
    }
    if n == 0 {
        proof {
            assert(hay@.subrange(0, 0) =~= needle@);
            lemma_first_match_is(hay@, needle@, 0);
        }
        return Some(0);
    }
    let mut i: usize = 0;
    while i <= h - n
        invariant
            n == needle.len(),
            h == hay.len(),
            0 < n <= h,
            i <= h - n + 1,
            forall|j: int| 0 <= j < i ==> !matches_at(hay@, needle@, j),
        decreases h - n + 1 - i,
    {
        if has_match_at(hay, needle, i) {
            proof {
                lemma_first_match_is(hay@, needle@, i as int);
            }
            return Some(i);
        }
        i += 1;
    }
    proof {
        lemma_first_match_none(hay@, needle@);
    }
    None
}

pub open spec fn is_last_match(hay: Seq<char>, needle: Seq<char>, i: int) -> bool {
    matches_at(hay, needle, i) && forall|j: int| i < j ==> !matches_at(hay, needle, j)
}

/// The index of the last occurrence of `needle` in `hay`.
pub open spec fn last_match(hay: Seq<char>, needle: Seq<char>) -> Option<int> {
    if exists|i: int| is_last_match(hay, needle, i) {
        Some(choose|i: int| is_last_match(hay, needle, i))
    } else {
        None
    }
}

/// An index that is a last occurrence is the last occurrence.
pub proof fn lemma_last_match_is(hay: Seq<char>, needle: Seq<char>, i: int)
    requires
        is_last_match(hay, needle, i),
    ensures
        last_match(hay, needle) == Some(i),
{
    let c = choose|c: int| is_last_match(hay, needle, c);
    if c < i {
        assert(!matches_at(hay, needle, i));
    } else if i < c {
        assert(!matches_at(hay, needle, c));
    }
}

/// Where the needle occurs nowhere, there is no last occurrence.
pub proof fn lemma_last_match_none(hay: Seq<char>, needle: Seq<char>)
    requires
        forall|j: int| !matches_at(hay, needle, j),
    ensures
        last_match(hay, needle) is None,
{
}

pub fn find_last(hay: &Vec<char>, needle: &Vec<char>) -> (r: Option<usize>)
    ensures
        as_int(r) == last_match(hay@, needle@),
        r matches Some(i) ==> is_last_match(hay@, needle@, i as int),
{
    let n = needle.len();
    let h = hay.len();
    if n > h {
        proof {
            lemma_last_match_none(hay@, needle@);
        }
        return None;
    }
    if n == 0 {
        proof {
            assert(hay@.subrange(h as int, h as int) =~= needle@);
            lemma_last_match_is(hay@, needle@, h as int);
        }
        return Some(h);
    }
    let mut i: usize = h - n + 1;
    while i > 0
        invariant
            n == needle.len(),
            h == hay.len(),
            0 < n <= h,
            i <= h - n + 1,
            forall|j: int| i <= j ==> !matches_at(hay@, needle@, j),
        decreases i,
    {
        i -= 1;
        if has_match_at(hay, needle, i) {
            proof {
                lemma_last_match_is(hay@, needle@, i as int);
            }
            return Some(i);
        }
    }
    proof {
        lemma_last_match_none(hay@, needle@);
    }
    None
}

/// Whether `needle` occurs anywhere in `hay`.
pub open spec fn contains_seq(hay: Seq<char>, needle: Seq<char>) -> bool {
    first_match(hay, needle) is Some
}

pub fn contains(hay: &Vec<char>, needle: &Vec<char>) -> (b: bool)
    ensures
        b == contains_seq(hay@, needle@),
{
    find_first(hay, needle).is_some()
}

pub open spec fn starts_with_seq(s: Seq<char>, prefix: Seq<char>) -> bool {
    matches_at(s, prefix, 0)
}

pub fn starts_with(s: &Vec<char>, prefix: &Vec<char>) -> (b: bool)
    ensures
        b == starts_with_seq(s@, prefix@),
{
    has_match_at(s, prefix, 0)
}

pub open spec fn ends_with_seq(s: Seq<char>, suffix: Seq<char>) -> bool {
    matches_at(s, suffix, s.len() - suffix.len())
}

pub fn ends_with(s: &Vec<char>, suffix: &Vec<char>) -> (b: bool)
    ensures
        b == ends_with_seq(s@, suffix@),
{
    if suffix.len() > s.len() {
        return false;
    }
    has_match_at(s, suffix, s.len() - suffix.len())
}

pub open spec fn is_first_index_of(s: Seq<char>, c: char, i: int) -> bool {
    0 <= i < s.len() && s[i] == c && forall|j: int| 0 <= j < i ==> s[j] != c
}

/// The index of the first `c` in `s`.
pub open spec fn first_index_of(s: Seq<char>, c: char) -> Option<int> {
    if exists|i: int| is_first_index_of(s, c, i) {
        Some(choose|i: int| is_first_index_of(s, c, i))
    } else {
        None
    }
}

/// An index that is the first place of a character is its first place.
pub proof fn lemma_first_index_is(s: Seq<char>, c: char, i: int)
    requires
        is_first_index_of(s, c, i),
    ensures
        first_index_of(s, c) == Some(i),
{
    let k = choose|k: int| is_first_index_of(s, c, k);
    if k < i {
        assert(s[k] != c);
    } else if i < k {
        assert(s[i] != c);
    }
}

pub fn find_char(s: &Vec<char>, c: char) -> (r: Option<usize>)
    ensures
        as_int(r) == first_index_of(s@, c),
        r matches Some(i) ==> is_first_index_of(s@, c, i as int),
{
    let mut i: usize = 0;
    while i < s.len()
        invariant
            i <= s.len(),
            forall|j: int| 0 <= j < i ==> s@[j] != c,
        decreases s.len() - i,
    {
        if s[i] == c {
            proof {
                lemma_first_index_is(s@, c, i as int);
            }
            return Some(i);
        }
        i += 1;
    }
    None
}

pub open spec fn is_last_index_of(s: Seq<char>, c: char, i: int) -> bool {
    0 <= i < s.len() && s[i] == c && forall|j: int| i < j < s.len() ==> s[j] != c
}

/// The index of the last `c` in `s`.
pub open spec fn last_index_of(s: Seq<char>, c: char) -> Option<int> {
    if exists|i: int| is_last_index_of(s, c, i) {
        Some(choose|i: int| is_last_index_of(s, c, i))
    } else {
        None
    }
}

/// An index that is the last place of a character is its last place.
pub proof fn lemma_last_index_is(s: Seq<char>, c: char, i: int)
    requires
        is_last_index_of(s, c, i),
    ensures
        last_index_of(s, c) == Some(i),
{
    let k = choose|k: int| is_last_index_of(s, c, k);
    if k < i {
        assert(s[i] != c);
    } else if i < k {
        assert(s[k] != c);
    }
}

pub fn rfind_char(s: &Vec<char>, c: char) -> (r: Option<usize>)
    ensures
        as_int(r) == last_index_of(s@, c),
        r matches Some(i) ==> is_last_index_of(s@, c, i as int),
{
    let mut i: usize = s.len();
    while i > 0
        invariant
            i <= s.len(),
            forall|j: int| i <= j < s.len() ==> s@[j] != c,
        decreases i,
    {
        i -= 1;
        if s[i] == c {
            proof {
                lemma_last_index_is(s@, c, i as int);
            }
            return Some(i);
        }
    }
    None
}

pub open spec fn is_leading_ws_count(s: Seq<char>, k: int) -> bool {
    0 <= k <= s.len() && (forall|i: int| 0 <= i < k ==> is_whitespace(s[i])) && (k < s.len()
        ==> !is_whitespace(s[k]))
}

/// The number of whitespace characters at the start of `s`.
pub open spec fn leading_ws(s: Seq<char>) -> int {
    choose|k: int| is_leading_ws_count(s, k)
}

/// A count that is the number of leading whitespace characters is that
/// number: there is only one.
pub proof fn lemma_leading_ws_is(s: Seq<char>, k: int)
    requires
        is_leading_ws_count(s, k),
    ensures
        leading_ws(s) == k,
{
    let c = leading_ws(s);
    if c < k {
        assert(is_whitespace(s[c]));
    } else if k < c {
        assert(is_whitespace(s[k]));
    }
}

pub fn count_leading_ws(s: &Vec<char>) -> (k: usize)
    ensures
        k == leading_ws(s@),
        k <= s.len(),
{
    let mut i: usize = 0;
    while i < s.len() && char_is_whitespace(s[i])
        invariant
            i <= s.len(),
            forall|j: int| 0 <= j < i ==> is_whitespace(s@[j]),
        decreases s.len() - i,
    {
        i += 1;
    }
    proof {
        lemma_leading_ws_is(s@, i as int);
    }
    i
}

pub open spec fn is_trailing_ws_count(s: Seq<char>, k: int) -> bool {
    0 <= k <= s.len() && (forall|i: int| s.len() - k <= i < s.len() ==> is_whitespace(s[i])) && (k
        < s.len() ==> !is_whitespace(s[s.len() - k - 1]))
}

/// The number of whitespace characters at the end of `s`.
pub open spec fn trailing_ws(s: Seq<char>) -> int {
    choose|k: int| is_trailing_ws_count(s, k)
}

/// A count that is the number of trailing whitespace characters is that
/// number: there is only one.
pub proof fn lemma_trailing_ws_is(s: Seq<char>, k: int)
    requires
        is_trailing_ws_count(s, k),
    ensures
        trailing_ws(s) == k,
{
    let c = trailing_ws(s);
    if c < k {
        assert(is_whitespace(s[s.len() - c - 1]));
    } else if k < c {
        assert(is_whitespace(s[s.len() - k - 1]));
    }
}

pub fn count_trailing_ws(s: &Vec<char>) -> (k: usize)
    ensures
        k == trailing_ws(s@),
        k <= s.len(),
{
    let n = s.len();
    let mut i: usize = 0;
    while i < n && char_is_whitespace(s[n - i - 1])
        invariant
            n == s.len(),
            i <= n,
            forall|j: int| n - i <= j < n ==> is_whitespace(s@[j]),
        decreases n - i,
    {
        i += 1;
    }
    proof {
        lemma_trailing_ws_is(s@, i as int);
    }
    i
}

/// `s` without its leading whitespace.
pub open spec fn trim_start_seq(s: Seq<char>) -> Seq<char> {
    s.subrange(leading_ws(s), s.len() as int)
}

/// `s` without its trailing whitespace.
pub open spec fn trim_end_seq(s: Seq<char>) -> Seq<char> {
    s.subrange(0, s.len() - trailing_ws(s))
}

/// `s` without leading and trailing whitespace.
pub open spec fn trim_seq(s: Seq<char>) -> Seq<char> {
    trim_end_seq(trim_start_seq(s))
}

pub fn trim_start(s: &Vec<char>) -> (r: Vec<char>)
    ensures
        r@ == trim_start_seq(s@),
{
    let k = count_leading_ws(s);
    subvec(s, k, s.len())
}

pub fn trim_end(s: &Vec<char>) -> (r: Vec<char>)
    ensures
        r@ == trim_end_seq(s@),
{
    let k = count_trailing_ws(s);
    subvec(s, 0, s.len() - k)
}

pub fn trim(s: &Vec<char>) -> (r: Vec<char>)
    ensures
        r@ == trim_seq(s@),
{
    let t = trim_start(s);
    trim_end(&t)
}

/// Whether every character of `s` is whitespace.
pub open spec fn is_blank(s: Seq<char>) -> bool {
    leading_ws(s) == s.len()
}

pub fn all_whitespace(s: &Vec<char>) -> (b: bool)
    ensures
        b == is_blank(s@),
{
    count_leading_ws(s) == s.len()
}

} // verus!
