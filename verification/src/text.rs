//! Characters and strings: white space, ASCII case, prefixes, and their executable helpers.
use vstd::prelude::*;

verus! {

/// Unicode `White_Space`, the set that `char::is_whitespace` and `str::trim` use.
pub open spec fn is_white(c: char) -> bool {
    ||| ('\u{9}' <= c && c <= '\u{d}')
    ||| c == ' '
    ||| c == '\u{85}'
    ||| c == '\u{a0}'
    ||| c == '\u{1680}'
    ||| ('\u{2000}' <= c && c <= '\u{200a}')
    ||| c == '\u{2028}'
    ||| c == '\u{2029}'
    ||| c == '\u{202f}'
    ||| c == '\u{205f}'
    ||| c == '\u{3000}'
}

pub open spec fn is_ascii_upper(c: char) -> bool {
    'A' <= c && c <= 'Z'
}

pub open spec fn is_ascii_lower(c: char) -> bool {
    'a' <= c && c <= 'z'
}

pub open spec fn is_ascii_alpha(c: char) -> bool {
    is_ascii_upper(c) || is_ascii_lower(c)
}

pub open spec fn is_ascii_digit(c: char) -> bool {
    '0' <= c && c <= '9'
}

/// `char::to_ascii_lowercase`.
pub open spec fn lower(c: char) -> char {
    if is_ascii_upper(c) { ((c as u32) + 32) as char } else { c }
}

/// `char::to_ascii_uppercase`.
pub open spec fn upper(c: char) -> char {
    if is_ascii_lower(c) { ((c as u32) - 32) as char } else { c }
}

pub fn is_white_char(c: char) -> (r: bool)
    ensures r == is_white(c),
{
    ('\u{9}' <= c && c <= '\u{d}') || c == ' ' || c == '\u{85}' || c == '\u{a0}' || c == '\u{1680}'
        || ('\u{2000}' <= c && c <= '\u{200a}') || c == '\u{2028}' || c == '\u{2029}'
        || c == '\u{202f}' || c == '\u{205f}' || c == '\u{3000}'
}

pub fn lower_char(c: char) -> (r: char)
    ensures r == lower(c),
{
    if 'A' <= c && c <= 'Z' {
        let b: u8 = c as u8;
        assert(b as u32 == c as u32);
        ((b + 32) as char)
    } else {
        c
    }
}


pub open spec fn trim_start(s: Seq<char>) -> Seq<char>
    decreases s.len(),
{
    if s.len() > 0 && is_white(s[0]) { trim_start(s.drop_first()) } else { s }
}

pub open spec fn trim_end(s: Seq<char>) -> Seq<char>
    decreases s.len(),
{
    if s.len() > 0 && is_white(s.last()) { trim_end(s.drop_last()) } else { s }
}

/// `str::trim`: Unicode white space removed from both ends.
pub open spec fn trim(s: Seq<char>) -> Seq<char> {
    trim_end(trim_start(s))
}

/// Every character of `s` is white space.
pub open spec fn all_white(s: Seq<char>) -> bool {
    forall|i: int| 0 <= i < s.len() ==> is_white(#[trigger] s[i])
}

proof fn lemma_trim_start_white_prefix(pre: Seq<char>, s: Seq<char>)
    requires
        all_white(pre),
        s.len() > 0 ==> !is_white(s[0]),
    ensures
        trim_start(pre + s) == s,
    decreases pre.len(),
{
    if pre.len() == 0 {
        assert(pre + s =~= s);
    } else {
        assert((pre + s)[0] == pre[0]);
        assert((pre + s).drop_first() =~= pre.drop_first() + s);
        assert(all_white(pre.drop_first())) by {
            assert forall|i: int| 0 <= i < pre.drop_first().len() implies is_white(#[trigger] pre.drop_first()[i]) by {
                assert(pre.drop_first()[i] == pre[i + 1]);
            }
        }
        lemma_trim_start_white_prefix(pre.drop_first(), s);
    }
}

proof fn lemma_trim_end_white_suffix(s: Seq<char>, post: Seq<char>)
    requires
        all_white(post),
        s.len() > 0 ==> !is_white(s.last()),
    ensures
        trim_end(s + post) == s,
    decreases post.len(),
{
    if post.len() == 0 {
        assert(s + post =~= s);
    } else {
        assert((s + post).last() == post.last());
        assert((s + post).drop_last() =~= s + post.drop_last());
        assert(all_white(post.drop_last())) by {
            assert forall|i: int| 0 <= i < post.drop_last().len() implies is_white(#[trigger] post.drop_last()[i]) by {
                assert(post.drop_last()[i] == post[i]);
            }
        }
        lemma_trim_end_white_suffix(s, post.drop_last());
    }
}

/// Trimming removes exactly the white space around a word that neither starts nor ends
/// with white space.
pub proof fn lemma_trim_around(pre: Seq<char>, w: Seq<char>, post: Seq<char>)
    requires
        all_white(pre),
        all_white(post),
        w.len() > 0,
        !is_white(w[0]),
        !is_white(w.last()),
    ensures
        trim(pre + w + post) == w,
{
    assert(pre + w + post =~= pre + (w + post));
    assert((w + post)[0] == w[0]);
    lemma_trim_start_white_prefix(pre, w + post);
    lemma_trim_end_white_suffix(w, post);
}

/// `str::to_ascii_lowercase`.
pub open spec fn lower_seq(s: Seq<char>) -> Seq<char> {
    s.map_values(|c: char| lower(c))
}

/// `str::eq_ignore_ascii_case`.
pub open spec fn eq_ignore_case(a: Seq<char>, b: Seq<char>) -> bool {
    a.len() == b.len() && forall|i: int| 0 <= i < a.len() ==> lower(#[trigger] a[i]) == lower(b[i])
}

pub open spec fn has_prefix(s: Seq<char>, p: Seq<char>) -> bool {
    p.len() <= s.len() && s.take(p.len() as int) == p
}

pub open spec fn has_suffix(s: Seq<char>, p: Seq<char>) -> bool {
    p.len() <= s.len() && s.skip(s.len() - p.len()) == p
}

/// `str::strip_prefix`.
pub open spec fn strip_prefix(s: Seq<char>, p: Seq<char>) -> Option<Seq<char>> {
    if has_prefix(s, p) { Some(s.skip(p.len() as int)) } else { None }
}

/// `str::strip_suffix`.
pub open spec fn strip_suffix(s: Seq<char>, p: Seq<char>) -> Option<Seq<char>> {
    if has_suffix(s, p) { Some(s.take(s.len() - p.len())) } else { None }
}

/// True when `needle` occurs somewhere in `s` (`str::contains` with a string pattern).
pub open spec fn contains(s: Seq<char>, needle: Seq<char>) -> bool {
    exists|i: int| 0 <= i && i + needle.len() <= s.len() && #[trigger] s.subrange(i, i + needle.len()) == needle
}

/// The characters of `s` as a vector.
pub fn chars_of(s: &str) -> (v: Vec<char>)
    ensures v@ == s@,
{
    let n = s.unicode_len();
    let mut v: Vec<char> = Vec::new();
    let mut i: usize = 0;
    while i < n
        invariant
            n == s@.len(),
            i <= n,
            v@ == s@.take(i as int),
        decreases n - i,
    {
        let c = s.get_char(i);
        v.push(c);
        assert(s@.take(i + 1) == s@.take(i as int).push(c));
        i += 1;
    }
    assert(s@.take(n as int) == s@);
    v
}

/// Appends one character (`String::push`).
#[verifier::external_body]
pub(crate) fn push_char(s: &mut String, c: char)
    ensures final(s)@ == old(s)@.push(c),
{
    s.push(c);
}

/// An owned copy of `s`.
pub fn owned(s: &str) -> (r: String)
    ensures r@ == s@,
{
    String::from_str(s)
}

/// A `String` holding exactly the characters of `v`.
pub fn string_of(v: &[char]) -> (r: String)
    ensures r@ == v@,
{
    let mut r = String::new();
    let mut i: usize = 0;
    while i < v.len()
        invariant
            i <= v.len(),
            r@ == v@.take(i as int),
        decreases v.len() - i,
    {
        push_char(&mut r, v[i]);
        assert(v@.take(i + 1) == v@.take(i as int).push(v@[i as int]));
        i += 1;
    }
    assert(v@.take(v.len() as int) == v@);
    r
}

pub fn chars_eq(a: &[char], b: &[char]) -> (r: bool)
    ensures r == (a@ == b@),
{
    if a.len() != b.len() {
        return false;
    }
    let mut i: usize = 0;
    while i < a.len()
        invariant
            i <= a.len(),
            a.len() == b.len(),
            forall|j: int| 0 <= j < i ==> a@[j] == b@[j],
        decreases a.len() - i,
    {
        if a[i] != b[i] {
            return false;
        }
        i += 1;
    }
    assert(a@ =~= b@);
    true
}

/// String equality on the characters.
pub fn str_eq(a: &str, b: &str) -> (r: bool)
    ensures r == (a@ == b@),
{
    let x = chars_of(a);
    let y = chars_of(b);
    chars_eq(x.as_slice(), y.as_slice())
}

pub fn chars_eq_ignore_case(a: &[char], b: &[char]) -> (r: bool)
    ensures r == eq_ignore_case(a@, b@),
{
    if a.len() != b.len() {
        return false;
    }
    let mut i: usize = 0;
    while i < a.len()
        invariant
            i <= a.len(),
            a.len() == b.len(),
            forall|j: int| 0 <= j < i ==> lower(#[trigger] a@[j]) == lower(b@[j]),
        decreases a.len() - i,
    {
        if lower_char(a[i]) != lower_char(b[i]) {
            return false;
        }
        i += 1;
    }
    true
}

/// `str::eq_ignore_ascii_case`.
pub fn str_eq_ignore_case(a: &str, b: &str) -> (r: bool)
    ensures r == eq_ignore_case(a@, b@),
{
    let x = chars_of(a);
    let y = chars_of(b);
    chars_eq_ignore_case(x.as_slice(), y.as_slice())
}

proof fn lemma_trim_start_skip(s: Seq<char>, i: int)
    requires
        0 <= i <= s.len(),
        forall|j: int| 0 <= j < i ==> is_white(#[trigger] s[j]),
    ensures
        trim_start(s) == trim_start(s.skip(i)),
    decreases i,
{
    if i > 0 {
        assert(s.drop_first().skip(i - 1) =~= s.skip(i));
        lemma_trim_start_skip(s.drop_first(), i - 1);
    } else {
        assert(s.skip(0) =~= s);
    }
}

proof fn lemma_trim_end_take(s: Seq<char>, e: int)
    requires
        0 <= e <= s.len(),
        forall|j: int| e <= j < s.len() ==> is_white(#[trigger] s[j]),
    ensures
        trim_end(s) == trim_end(s.take(e)),
    decreases s.len() - e,
{
    if e < s.len() {
        assert(s.drop_last().take(e) =~= s.take(e));
        lemma_trim_end_take(s.drop_last(), e);
    } else {
        assert(s.take(e) =~= s);
    }
}

/// Bounds `(b, e)` such that `v[b..e]` is `v` trimmed of white space.
pub fn trim_bounds(v: &[char]) -> (r: (usize, usize))
    ensures
        r.0 <= r.1 <= v.len(),
        v@.subrange(r.0 as int, r.1 as int) == trim(v@),
{
    let mut b: usize = 0;
    while b < v.len() && is_white_char(v[b])
        invariant
            b <= v.len(),
            forall|j: int| 0 <= j < b ==> is_white(#[trigger] v@[j]),
        decreases v.len() - b,
    {
        b += 1;
    }
    proof {
        lemma_trim_start_skip(v@, b as int);
    }
    let ghost t = v@.skip(b as int);
    assert(trim_start(v@) == t);
    let mut e: usize = v.len();
    while e > b && is_white_char(v[e - 1])
        invariant
            b <= e <= v.len(),
            forall|j: int| e <= j < v.len() ==> is_white(#[trigger] v@[j]),
        decreases e,
    {
        e -= 1;
    }
    proof {
        let t = v@.skip(b as int);
        assert forall|j: int| e - b <= j < t.len() implies is_white(#[trigger] t[j]) by {
            assert(t[j] == v@[j + b]);
        }
        lemma_trim_end_take(t, e - b);
        assert(t.take(e - b) =~= v@.subrange(b as int, e as int));
    }
    (b, e)
}

/// `str::trim`.
pub fn trimmed(s: &str) -> (r: &str)
    ensures r@ == trim(s@),
{
    let v = chars_of(s);
    let (b, e) = trim_bounds(v.as_slice());
    s.substring_char(b, e)
}

/// `str::starts_with` for a string pattern.
pub fn chars_start_with(s: &[char], p: &[char]) -> (r: bool)
    ensures r == has_prefix(s@, p@),
{
    if p.len() > s.len() {
        return false;
    }
    let mut i: usize = 0;
    while i < p.len()
        invariant
            i <= p.len() <= s.len(),
            forall|j: int| 0 <= j < i ==> s@[j] == p@[j],
        decreases p.len() - i,
    {
        if s[i] != p[i] {
            assert(s@.take(p.len() as int)[i as int] != p@[i as int]);
            return false;
        }
        i += 1;
    }
    assert(s@.take(p.len() as int) =~= p@);
    true
}

/// `str::strip_prefix` for a string pattern.
pub fn strip_prefix_str<'a>(s: &'a str, p: &str) -> (r: Option<&'a str>)
    ensures
        match r {
            Some(x) => strip_prefix(s@, p@) == Some(x@),
            None => strip_prefix(s@, p@) is None,
        },
{
    let v = chars_of(s);
    let w = chars_of(p);
    if chars_start_with(v.as_slice(), w.as_slice()) {
        Some(s.substring_char(w.len(), v.len()))
    } else {
        None
    }
}

} // verus!
verus! {

/// Element-wise equality of two string lists.
pub fn string_lists_eq(a: &Vec<String>, b: &Vec<String>) -> (r: bool)
    ensures r == (a@.map_values(|x: String| x@) == b@.map_values(|x: String| x@)),
{
    if a.len() != b.len() {
        assert(a@.map_values(|x: String| x@).len() != b@.map_values(|x: String| x@).len());
        return false;
    }
    let mut i: usize = 0;
    while i < a.len()
        invariant
            i <= a.len(),
            a.len() == b.len(),
            forall|j: int| 0 <= j < i ==> a@[j]@ == b@[j]@,
        decreases a.len() - i,
    {
        if a[i] != b[i] {
            assert(a@.map_values(|x: String| x@)[i as int] != b@.map_values(|x: String| x@)[i as int]);
            return false;
        }
        i += 1;
    }
    assert(a@.map_values(|x: String| x@) =~= b@.map_values(|x: String| x@));
    true
}

} // verus!

verus! {

/// True when `needle` occurs in `hay`.
pub fn chars_contain(hay: &[char], needle: &[char]) -> (r: bool)
    ensures r == contains(hay@, needle@),
{
    if needle.len() == 0 {
        assert(hay@.subrange(0int, 0int + needle@.len()) =~= needle@);
        return true;
    }
    if needle.len() > hay.len() {
        return false;
    }
    let mut i: usize = 0;
    let last = hay.len() - needle.len();
    while i <= last
        invariant
            0 < needle@.len() <= hay@.len(),
            last == hay@.len() - needle@.len(),
            i <= last + 1,
            forall|k: int| 0 <= k < i ==> #[trigger] hay@.subrange(k, k + needle@.len()) != needle@,
        decreases hay.len() - i,
    {
        let mut j: usize = 0;
        let mut same = true;
        while j < needle.len()
            invariant
                i + needle@.len() <= hay@.len(),
                hay@.len() == hay.len(),
                needle@.len() == needle.len(),
                j <= needle.len(),
                same == (forall|m: int| 0 <= m < j ==> hay@[i + m] == needle@[m]),
            decreases needle.len() - j,
        {
            if hay[i + j] != needle[j] {
                same = false;
            }
            j += 1;
        }
        if same {
            assert(hay@.subrange(i as int, i + needle@.len()) =~= needle@);
            return true;
        }
        proof {
            let m = choose|m: int| 0 <= m < needle@.len() && hay@[i + m] != needle@[m];
            assert(hay@.subrange(i as int, i + needle@.len())[m] != needle@[m]);
        }
        i += 1;
    }
    proof {
        assert forall|k: int| 0 <= k && k + needle@.len() <= hay@.len() implies #[trigger] hay@.subrange(k, k + needle@.len()) != needle@ by {
            assert(k < i);
        }
    }
    false
}

/// `str::contains` for a string pattern.
pub fn str_contains(hay: &str, needle: &str) -> (r: bool)
    ensures r == contains(hay@, needle@),
{
    let h = chars_of(hay);
    let n = chars_of(needle);
    chars_contain(h.as_slice(), n.as_slice())
}

} // verus!

verus! {

/// The first position of `c` in `s`.
pub open spec fn index_of(s: Seq<char>, c: char) -> Option<int>
    decreases s.len(),
{
    if s.len() == 0 {
        None
    } else if s[0] == c {
        Some(0)
    } else {
        match index_of(s.drop_first(), c) {
            Some(i) => Some(i + 1),
            None => None,
        }
    }
}

pub proof fn lemma_index_of_bounds(s: Seq<char>, c: char)
    ensures
        match index_of(s, c) {
            Some(i) => 0 <= i < s.len() && s[i] == c && forall|j: int| 0 <= j < i ==> s[j] != c,
            None => forall|j: int| 0 <= j < s.len() ==> s[j] != c,
        },
    decreases s.len(),
{
    if s.len() > 0 {
        lemma_index_of_bounds(s.drop_first(), c);
        if s[0] != c {
            match index_of(s.drop_first(), c) {
                Some(i) => {
                    assert forall|j: int| 0 <= j < i + 1 implies s[j] != c by {
                        if j > 0 { assert(s[j] == s.drop_first()[j - 1]); }
                    }
                },
                None => {
                    assert forall|j: int| 0 <= j < s.len() implies s[j] != c by {
                        if j > 0 { assert(s[j] == s.drop_first()[j - 1]); }
                    }
                },
            }
        }
    }
}

/// The first position of `c` in `v`.
pub fn find_char(v: &[char], c: char) -> (r: Option<usize>)
    ensures
        match r {
            Some(i) => index_of(v@, c) == Some(i as int) && i < v@.len(),
            None => index_of(v@, c) is None,
        },
{
    let mut i: usize = 0;
    assert(v@.skip(0) =~= v@);
    while i < v.len()
        invariant
            i <= v@.len(),
            index_of(v@, c) == match index_of(v@.skip(i as int), c) {
                Some(k) => Some(k + i),
                None => None,
            },
        decreases v.len() - i,
    {
        assert(v@.skip(i as int).drop_first() =~= v@.skip(i + 1));
        if v[i] == c {
            return Some(i);
        }
        i += 1;
    }
    None
}

/// `str::ends_with` for a string pattern.
pub fn chars_end_with(s: &[char], p: &[char]) -> (r: bool)
    ensures r == has_suffix(s@, p@),
{
    if p.len() > s.len() {
        return false;
    }
    let off = s.len() - p.len();
    let mut i: usize = 0;
    while i < p.len()
        invariant
            off + p@.len() == s@.len(),
            s@.len() == s.len(),
            p@.len() == p.len(),
            i <= p.len(),
            forall|j: int| 0 <= j < i ==> s@[off + j] == p@[j],
        decreases p.len() - i,
    {
        if s[off + i] != p[i] {
            assert(s@.skip(off as int)[i as int] != p@[i as int]);
            return false;
        }
        i += 1;
    }
    assert(s@.skip(off as int) =~= p@);
    true
}

/// `str::strip_suffix` for a string pattern.
pub fn strip_suffix_str<'a>(s: &'a str, p: &str) -> (r: Option<&'a str>)
    ensures
        match r {
            Some(x) => strip_suffix(s@, p@) == Some(x@),
            None => strip_suffix(s@, p@) is None,
        },
{
    let v = chars_of(s);
    let w = chars_of(p);
    if chars_end_with(v.as_slice(), w.as_slice()) {
        Some(s.substring_char(0, v.len() - w.len()))
    } else {
        None
    }
}

} // verus!

verus! {

/// `str::to_ascii_lowercase`.
pub fn ascii_lowercase(s: &str) -> (r: String)
    ensures r@ == lower_seq(s@),
{
    let v = chars_of(s);
    let mut r = String::new();
    let mut i: usize = 0;
    while i < v.len()
        invariant
            i <= v.len(),
            v@ == s@,
            r@ == lower_seq(v@.take(i as int)),
        decreases v.len() - i,
    {
        let c = lower_char(v[i]);
        push_char(&mut r, c);
        assert(lower_seq(v@.take(i + 1)) =~= lower_seq(v@.take(i as int)).push(c));
        i += 1;
    }
    assert(v@.take(v.len() as int) =~= v@);
    r
}

/// The characters of each string of a list.
pub open spec fn views(v: Seq<String>) -> Seq<Seq<char>> {
    v.map_values(|x: String| x@)
}

/// The characters of an optional string.
pub open spec fn opt_view(o: Option<String>) -> Option<Seq<char>> {
    match o {
        Some(s) => Some(s@),
        None => None,
    }
}

/// The characters of an optional borrowed string.
pub open spec fn opt_str_view(o: Option<&str>) -> Option<Seq<char>> {
    match o {
        Some(s) => Some(s@),
        None => None,
    }
}

/// `Option::as_deref` on an optional string.
pub fn opt_as_str(o: &Option<String>) -> (r: Option<&str>)
    ensures opt_str_view(r) == opt_view(*o),
{
    match o {
        Some(s) => Some(s.as_str()),
        None => None,
    }
}

/// The decimal digit for `d` (0 to 9).
pub open spec fn digit_char(d: int) -> char {
    if d == 0 { '0' } else if d == 1 { '1' } else if d == 2 { '2' } else if d == 3 { '3' }
    else if d == 4 { '4' } else if d == 5 { '5' } else if d == 6 { '6' } else if d == 7 { '7' }
    else if d == 8 { '8' } else { '9' }
}

/// `n` written in decimal, without leading zeros.
pub open spec fn decimal(n: nat) -> Seq<char>
    decreases n,
{
    if n < 10 { seq![digit_char(n as int)] } else { decimal(n / 10).push(digit_char((n % 10) as int)) }
}

/// `i` written in decimal, as `Display` writes an integer: a `-` before a negative one.
pub open spec fn int_text(i: int) -> Seq<char> {
    if i < 0 { seq!['-'] + decimal((-i) as nat) } else { decimal(i as nat) }
}

fn digit_of(d: u64) -> (c: char)
    requires d < 10,
    ensures c == digit_char(d as int),
{
    if d == 0 { '0' } else if d == 1 { '1' } else if d == 2 { '2' } else if d == 3 { '3' }
    else if d == 4 { '4' } else if d == 5 { '5' } else if d == 6 { '6' } else if d == 7 { '7' }
    else if d == 8 { '8' } else { '9' }
}

fn decimal_chars(n: u64) -> (r: Vec<char>)
    ensures r@ == decimal(n as nat),
    decreases n,
{
    if n < 10 {
        let mut v: Vec<char> = Vec::new();
        v.push(digit_of(n));
        assert(v@ =~= seq![digit_char(n as int)]);
        v
    } else {
        let mut v = decimal_chars(n / 10);
        v.push(digit_of(n % 10));
        v
    }
}

/// `i` in decimal (see `int_text`).
pub fn int_string(i: i32) -> (r: String)
    ensures r@ == int_text(i as int),
{
    if i < 0 {
        let wide: i64 = i as i64;
        let n: u64 = (-wide) as u64;
        let digits = decimal_chars(n);
        let mut r = String::new();
        push_char(&mut r, '-');
        let rest = string_of(digits.as_slice());
        r.append(rest.as_str());
        r
    } else {
        let n: u64 = i as u64;
        let digits = decimal_chars(n);
        string_of(digits.as_slice())
    }
}

/// `n` in decimal.
pub fn count_string(n: usize) -> (r: String)
    ensures r@ == decimal(n as nat),
{
    let digits = decimal_chars(n as u64);
    string_of(digits.as_slice())
}

} // verus!
