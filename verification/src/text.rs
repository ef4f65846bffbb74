//! Character-level text operations used to turn scraped page text into
//! keys, titles and URLs. Every operation is stated over `Seq<char>`.
use vstd::prelude::*;

verus! {

broadcast use vstd::string::group_string_axioms;

// ---------------------------------------------------------------------------
// Specifications
// ---------------------------------------------------------------------------

/// The characters with the Unicode `White_Space` property, which is what
/// `char::is_whitespace` tests.
pub open spec fn is_ws(c: char) -> bool {
    let u = c as u32;
    ||| 0x09 <= u <= 0x0d
    ||| u == 0x20
    ||| u == 0x85
    ||| u == 0xa0
    ||| u == 0x1680
    ||| 0x2000 <= u <= 0x200a
    ||| u == 0x2028
    ||| u == 0x2029
    ||| u == 0x202f
    ||| u == 0x205f
    ||| u == 0x3000
}

/// `s` begins with `p`.
pub open spec fn has_prefix(s: Seq<char>, p: Seq<char>) -> bool {
    p.len() <= s.len() && s.subrange(0, p.len() as int) == p
}

/// `s` ends with `p`.
pub open spec fn has_suffix(s: Seq<char>, p: Seq<char>) -> bool {
    p.len() <= s.len() && s.subrange(s.len() - p.len(), s.len() as int) == p
}

/// `p` occurs in `s` starting at index `i`.
pub open spec fn occurs_at(s: Seq<char>, p: Seq<char>, i: int) -> bool {
    0 <= i && i + p.len() <= s.len() && s.subrange(i, i + p.len()) == p
}

/// `s` with the prefix `p` removed when it has it, else `s` itself.
pub open spec fn strip_prefix_or_self_spec(s: Seq<char>, p: Seq<char>) -> Seq<char> {
    if has_prefix(s, p) {
        s.subrange(p.len() as int, s.len() as int)
    } else {
        s
    }
}

/// `s` without its leading whitespace.
pub open spec fn trim_start_spec(s: Seq<char>) -> Seq<char>
    decreases s.len(),
{
    if s.len() > 0 && is_ws(s[0]) {
        trim_start_spec(s.drop_first())
    } else {
        s
    }
}

/// `s` without the characters satisfying `is_ws` at its end.
pub open spec fn trim_end_spec(s: Seq<char>) -> Seq<char>
    decreases s.len(),
{
    if s.len() > 0 && is_ws(s.last()) {
        trim_end_spec(s.drop_last())
    } else {
        s
    }
}

/// `s` without leading and trailing whitespace (`str::trim`).
pub open spec fn trim_spec(s: Seq<char>) -> Seq<char> {
    trim_end_spec(trim_start_spec(s))
}

/// `s` without all copies of `c` at its end (`str::trim_end_matches` with a char).
pub open spec fn trim_end_char_spec(s: Seq<char>, c: char) -> Seq<char>
    decreases s.len(),
{
    if s.len() > 0 && s.last() == c {
        trim_end_char_spec(s.drop_last(), c)
    } else {
        s
    }
}

/// `t` before each character of `s` and at its end: what replacing the
/// empty pattern gives.
pub open spec fn replace_empty_spec(s: Seq<char>, t: Seq<char>) -> Seq<char>
    decreases s.len(),
{
    if s.len() == 0 {
        t
    } else {
        t + seq![s[0]] + replace_empty_spec(s.drop_first(), t)
    }
}

/// Every occurrence of `p` in `s`, taken from the left without overlap,
/// replaced by `t` (`str::replace`); the empty pattern occurs before each
/// character and at the end.
pub open spec fn replace_spec(s: Seq<char>, p: Seq<char>, t: Seq<char>) -> Seq<char>
    decreases s.len(),
{
    if p.len() == 0 {
        replace_empty_spec(s, t)
    } else if s.len() < p.len() {
        s
    } else if s.subrange(0, p.len() as int) == p {
        t + replace_spec(s.subrange(p.len() as int, s.len() as int), p, t)
    } else {
        seq![s[0]] + replace_spec(s.drop_first(), p, t)
    }
}

/// The pieces of `s` between the occurrences of `c` (`str::split` with a char).
/// There is always at least one piece.
pub open spec fn split_spec(s: Seq<char>, c: char) -> Seq<Seq<char>>
    decreases s.len(),
{
    if s.len() == 0 {
        seq![Seq::<char>::empty()]
    } else {
        let init = split_spec(s.drop_last(), c);
        if s.last() == c {
            init.push(Seq::<char>::empty())
        } else {
            init.update(init.len() - 1, init.last().push(s.last()))
        }
    }
}

/// The first index at or after `i` where `p` occurs in `s`.
pub open spec fn find_from(s: Seq<char>, p: Seq<char>, i: int) -> Option<int>
    decreases s.len() + 1 - i,
{
    if i < 0 || i + p.len() > s.len() {
        None
    } else if s.subrange(i, i + p.len()) == p {
        Some(i)
    } else {
        find_from(s, p, i + 1)
    }
}

/// The index of the first occurrence of `p` in `s` (`str::find`).
pub open spec fn find_spec(s: Seq<char>, p: Seq<char>) -> Option<int> {
    find_from(s, p, 0)
}

/// `p` occurs somewhere in `s` (`str::contains`).
pub open spec fn contains_spec(s: Seq<char>, p: Seq<char>) -> bool {
    find_spec(s, p) is Some
}

/// The parts joined with `sep` between each two of them (`[String]::join`).
pub open spec fn join_spec(parts: Seq<Seq<char>>, sep: Seq<char>) -> Seq<char>
    decreases parts.len(),
{
    if parts.len() == 0 {
        Seq::<char>::empty()
    } else if parts.len() == 1 {
        parts[0]
    } else {
        join_spec(parts.drop_last(), sep) + sep + parts.last()
    }
}

/// The character of the decimal digit `d`.
pub open spec fn digit_char(d: int) -> char {
    (d + 48) as char
}

/// The decimal digits of `n`, without leading zeros.
pub open spec fn digits_spec(n: nat) -> Seq<char>
    decreases n,
{
    if n < 10 {
        seq![digit_char(n as int)]
    } else {
        digits_spec(n / 10).push(digit_char((n % 10) as int))
    }
}

/// How `Display` writes an integer: a minus sign when it is negative, then
/// its digits.
pub open spec fn decimal_spec(n: int) -> Seq<char> {
    if n < 0 {
        seq!['-'] + digits_spec((-n) as nat)
    } else {
        digits_spec(n as nat)
    }
}

/// The name of what `str::to_lowercase` returns: the Unicode lowercase
/// mapping of every character, which takes pages to write out.
pub uninterp spec fn lowercase_of(s: Seq<char>) -> Seq<char>;

// ---------------------------------------------------------------------------
// Conversions between strings and character vectors
// ---------------------------------------------------------------------------

/// The characters of `s`.
pub fn chars_of(s: &str) -> (v: Vec<char>)
    ensures
        v@ == s@,
{
    let mut v: Vec<char> = Vec::new();
    for c in it: s.chars()
        invariant
            it.seq() == s@,
            v@ == it.seq().take(it.index() as int),
    {
        v.push(c);
    }
    v
}

/// Appends one character to a string (`String::push`).
#[verifier::external_body]
fn push_char(s: &mut String, c: char)
    ensures
        final(s)@ == old(s)@.push(c),
{
    s.push(c);
}

/// The string made of the characters `v[from..to]`.
pub fn string_of_range(v: &[char], from: usize, to: usize) -> (s: String)
    requires
        from <= to <= v@.len(),
    ensures
        s@ == v@.subrange(from as int, to as int),
{
    let mut s = String::new();
    let mut i = from;
    while i < to
        invariant
            from <= i <= to <= v@.len(),
            s@ == v@.subrange(from as int, i as int),
        decreases to - i,
    {
        push_char(&mut s, v[i]);
        assert(v@.subrange(from as int, i + 1) == v@.subrange(from as int, i as int).push(v@[i as int]));
        i = i + 1;
    }
    s
}

/// The string made of the characters of `v`.
pub fn string_of(v: &[char]) -> (s: String)
    ensures
        s@ == v@,
{
    let s = string_of_range(v, 0, v.len());
    assert(v@.subrange(0, v@.len() as int) == v@);
    s
}

/// A copy of `s` as an owned string.
pub fn owned(s: &str) -> (r: String)
    ensures
        r@ == s@,
{
    let v = chars_of(s);
    string_of(&v)
}

/// `a` followed by `b`.
pub fn concat2(a: &str, b: &str) -> (r: String)
    ensures
        r@ == a@ + b@,
{
    let mut r = owned(a);
    r.append(b);
    r
}

/// `a`, `b` and `c` one after another.
pub fn concat3(a: &str, b: &str, c: &str) -> (r: String)
    ensures
        r@ == a@ + b@ + c@,
{
    let mut r = owned(a);
    r.append(b);
    r.append(c);
    r
}

/// The lowercase form of `s` (`str::to_lowercase`).
#[verifier::external_body]
pub(crate) fn lowercase(s: &str) -> (r: String)
    ensures
        r@ == lowercase_of(s@),
{
    s.to_lowercase()
}


// ---------------------------------------------------------------------------
// Matching
// ---------------------------------------------------------------------------

/// Whether `p` occurs in `v` at index `i`.
pub fn matches_at(v: &[char], p: &[char], i: usize) -> (b: bool)
    ensures
        b == occurs_at(v@, p@, i as int),
{
    if i > v.len() || p.len() > v.len() - i {
        return false;
    }
    let n = v.len();
    let mut k: usize = 0;
    while k < p.len()
        invariant
            n == v@.len(),
            i + p@.len() <= v@.len(),
            k <= p@.len(),
            forall|j: int| 0 <= j < k ==> v@[i + j] == p@[j],
        decreases p.len() - k,
    {
        if v[i + k] != p[k] {
            assert(v@.subrange(i as int, i + p@.len())[k as int] != p@[k as int]);
            return false;
        }
        k = k + 1;
    }
    assert(v@.subrange(i as int, i + p@.len()) =~= p@);
    true
}

/// Whether `s` begins with `p` (`str::starts_with`).
pub fn starts_with(s: &str, p: &str) -> (b: bool)
    ensures
        b == has_prefix(s@, p@),
{
    let v = chars_of(s);
    let q = chars_of(p);
    matches_at(&v, &q, 0)
}

/// Whether `s` ends with `p` (`str::ends_with`).
pub fn ends_with(s: &str, p: &str) -> (b: bool)
    ensures
        b == has_suffix(s@, p@),
{
    let v = chars_of(s);
    let q = chars_of(p);
    if q.len() > v.len() {
        return false;
    }
    matches_at(&v, &q, v.len() - q.len())
}

/// Whether `a` and `b` hold the same characters.
pub fn same_text(a: &str, b: &str) -> (r: bool)
    ensures
        r == (a@ == b@),
{
    let v = chars_of(a);
    let q = chars_of(b);
    if v.len() != q.len() {
        return false;
    }
    let r = matches_at(&v, &q, 0);
    proof {
        if r {
            assert(v@ =~= v@.subrange(0, q@.len() as int));
        } else {
            if a@ == b@ {
                assert(v@.subrange(0, q@.len() as int) =~= q@);
            }
        }
    }
    r
}

/// `s` without the prefix `p` when it has it, else `s` itself.
pub fn strip_prefix_or_self(s: &str, p: &str) -> (r: String)
    ensures
        r@ == strip_prefix_or_self_spec(s@, p@),
{
    let v = chars_of(s);
    let q = chars_of(p);
    if matches_at(&v, &q, 0) {
        string_of_range(&v, q.len(), v.len())
    } else {
        string_of(&v)
    }
}

/// The index of the first occurrence of `p` in `v` at or after `from`.
pub fn find_in(v: &[char], p: &[char], from: usize) -> (r: Option<usize>)
    ensures
        match r {
            Some(i) => find_from(v@, p@, from as int) == Some(i as int),
            None => find_from(v@, p@, from as int) is None,
        },
    decreases v.len() + 1 - from,
{
    if from > v.len() || p.len() > v.len() - from {
        return None;
    }
    if matches_at(v, p, from) {
        Some(from)
    } else if from == v.len() {
        assert(v@.subrange(from as int, from + p@.len()) =~= p@);
        None
    } else {
        find_in(v, p, from + 1)
    }
}

/// The index of the first occurrence of `p` in `s`, counted in characters.
pub fn find(s: &str, p: &str) -> (r: Option<usize>)
    ensures
        match r {
            Some(i) => find_spec(s@, p@) == Some(i as int),
            None => find_spec(s@, p@) is None,
        },
{
    let v = chars_of(s);
    let q = chars_of(p);
    find_in(&v, &q, 0)
}

/// A match found by `find_spec` lies inside the text.
pub proof fn lemma_find_in_bounds(s: Seq<char>, p: Seq<char>, i: int)
    requires
        0 <= i,
    ensures
        find_from(s, p, i) matches Some(k) ==> i <= k && k + p.len() <= s.len(),
    decreases s.len() + 1 - i,
{
    if i + p.len() <= s.len() && s.subrange(i, i + p.len()) != p {
        lemma_find_in_bounds(s, p, i + 1);
    }
}

/// Whether `p` occurs in `s` (`str::contains`).
pub fn contains(s: &str, p: &str) -> (b: bool)
    ensures
        b == contains_spec(s@, p@),
{
    find(s, p).is_some()
}


// ---------------------------------------------------------------------------
// Trimming
// ---------------------------------------------------------------------------

/// Whether `c` is whitespace (`char::is_whitespace`).
pub fn is_whitespace(c: char) -> (b: bool)
    ensures
        b == is_ws(c),
{
    let u = c as u32;
    (0x09 <= u && u <= 0x0d) || u == 0x20 || u == 0x85 || u == 0xa0 || u == 0x1680
        || (0x2000 <= u && u <= 0x200a) || u == 0x2028 || u == 0x2029 || u == 0x202f
        || u == 0x205f || u == 0x3000
}

/// Leading whitespace ends at `a`.
proof fn lemma_trim_start_at(s: Seq<char>, a: int)
    requires
        0 <= a <= s.len(),
        forall|j: int| 0 <= j < a ==> is_ws(#[trigger] s[j]),
        a == s.len() || !is_ws(s[a]),
    ensures
        trim_start_spec(s) == s.subrange(a, s.len() as int),
    decreases a,
{
    if a == 0 {
        assert(s.subrange(0, s.len() as int) =~= s);
    } else {
        assert(is_ws(s[0]));
        let t = s.drop_first();
        assert forall|j: int| 0 <= j < a - 1 implies is_ws(#[trigger] t[j]) by {
            assert(t[j] == s[j + 1]);
        }
        if a < s.len() {
            assert(t[a - 1] == s[a]);
        }
        lemma_trim_start_at(t, a - 1);
        assert(t.subrange(a - 1, t.len() as int) =~= s.subrange(a, s.len() as int));
    }
}

/// Trailing whitespace starts at `b`.
proof fn lemma_trim_end_at(s: Seq<char>, b: int)
    requires
        0 <= b <= s.len(),
        forall|j: int| b <= j < s.len() ==> is_ws(#[trigger] s[j]),
        b == 0 || !is_ws(s[b - 1]),
    ensures
        trim_end_spec(s) == s.subrange(0, b),
    decreases s.len() - b,
{
    if b == s.len() {
        assert(s.subrange(0, s.len() as int) =~= s);
    } else {
        assert(is_ws(s[s.len() - 1]));
        let t = s.drop_last();
        assert forall|j: int| b <= j < t.len() implies is_ws(#[trigger] t[j]) by {
            assert(t[j] == s[j]);
        }
        if b > 0 {
            assert(t[b - 1] == s[b - 1]);
        }
        lemma_trim_end_at(t, b);
        assert(t.subrange(0, b) =~= s.subrange(0, b));
    }
}

/// `s` without leading and trailing whitespace (`str::trim`).
pub fn trim(s: &str) -> (r: String)
    ensures
        r@ == trim_spec(s@),
{
    let v = chars_of(s);
    let n = v.len();
    let mut a: usize = 0;
    while a < n && is_whitespace(v[a])
        invariant
            n == v@.len(),
            a <= n,
            forall|j: int| 0 <= j < a ==> is_ws(#[trigger] v@[j]),
        decreases n - a,
    {
        a = a + 1;
    }
    let mut b: usize = n;
    while b > a && is_whitespace(v[b - 1])
        invariant
            n == v@.len(),
            a <= b <= n,
            forall|j: int| b <= j < n ==> is_ws(#[trigger] v@[j]),
        decreases b - a,
    {
        b = b - 1;
    }
    proof {
        lemma_trim_start_at(v@, a as int);
        let t = v@.subrange(a as int, n as int);
        assert forall|j: int| b - a <= j < t.len() implies is_ws(#[trigger] t[j]) by {
            assert(t[j] == v@[a + j]);
        }
        if b > a {
            assert(t[b - a - 1] == v@[b - 1]);
        }
        lemma_trim_end_at(t, b - a);
        assert(t.subrange(0, b - a) =~= v@.subrange(a as int, b as int));
    }
    string_of_range(&v, a, b)
}

/// Trailing copies of `c` end at `b`.
proof fn lemma_trim_end_char_at(s: Seq<char>, c: char, b: int)
    requires
        0 <= b <= s.len(),
        forall|j: int| b <= j < s.len() ==> #[trigger] s[j] == c,
        b == 0 || s[b - 1] != c,
    ensures
        trim_end_char_spec(s, c) == s.subrange(0, b),
    decreases s.len() - b,
{
    if b == s.len() {
        assert(s.subrange(0, s.len() as int) =~= s);
    } else {
        assert(s[s.len() - 1] == c);
        let t = s.drop_last();
        assert forall|j: int| b <= j < t.len() implies #[trigger] t[j] == c by {
            assert(t[j] == s[j]);
        }
        if b > 0 {
            assert(t[b - 1] == s[b - 1]);
        }
        lemma_trim_end_char_at(t, c, b);
        assert(t.subrange(0, b) =~= s.subrange(0, b));
    }
}

/// `s` without all copies of `c` at its end (`str::trim_end_matches`).
pub fn trim_end_char(s: &str, c: char) -> (r: String)
    ensures
        r@ == trim_end_char_spec(s@, c),
{
    let v = chars_of(s);
    let n = v.len();
    let mut b: usize = n;
    while b > 0 && v[b - 1] == c
        invariant
            n == v@.len(),
            b <= n,
            forall|j: int| b <= j < n ==> #[trigger] v@[j] == c,
        decreases b,
    {
        b = b - 1;
    }
    proof {
        lemma_trim_end_char_at(v@, c, b as int);
    }
    string_of_range(&v, 0, b)
}


// ---------------------------------------------------------------------------
// Replacing, splitting and joining
// ---------------------------------------------------------------------------

/// The views of a sequence of strings.
pub open spec fn views(v: Seq<String>) -> Seq<Seq<char>> {
    v.map_values(|x: String| x@)
}

/// `t` before each character of `s` and at its end.
fn replace_empty(s: &str, t: &str) -> (r: String)
    ensures
        r@ == replace_empty_spec(s@, t@),
{
    let v = chars_of(s);
    let n = v.len();
    let mut acc = String::new();
    let mut i: usize = 0;
    assert(v@.subrange(0, n as int) =~= v@);
    while i < n
        invariant
            n == v@.len(),
            v@ == s@,
            i <= n,
            replace_empty_spec(s@, t@) == acc@ + replace_empty_spec(v@.subrange(i as int, n as int), t@),
        decreases n - i,
    {
        let ghost rest = v@.subrange(i as int, n as int);
        assert(rest.drop_first() =~= v@.subrange(i + 1, n as int));
        let ghost before = acc@;
        acc.append(t);
        push_char(&mut acc, v[i]);
        assert(acc@ + replace_empty_spec(v@.subrange(i + 1, n as int), t@)
            =~= before + (t@ + seq![rest[0]] + replace_empty_spec(rest.drop_first(), t@)));
        i = i + 1;
    }
    assert(v@.subrange(n as int, n as int) =~= Seq::<char>::empty());
    acc.append(t);
    acc
}

/// `s` with every occurrence of `p` replaced by `t` (`str::replace`).
pub fn replace(s: &str, p: &str, t: &str) -> (r: String)
    ensures
        r@ == replace_spec(s@, p@, t@),
{
    let pv = chars_of(p);
    if pv.len() == 0 {
        return replace_empty(s, t);
    }
    replace_nonempty(s, p, t)
}

/// `s` with every occurrence of the non-empty `p` replaced by `t`.
fn replace_nonempty(s: &str, p: &str, t: &str) -> (r: String)
    requires
        p@.len() > 0,
    ensures
        r@ == replace_spec(s@, p@, t@),
{
    let v = chars_of(s);
    let q = chars_of(p);
    let w = chars_of(t);
    let n = v.len();
    let mut acc: Vec<char> = Vec::new();
    let mut i: usize = 0;
    assert(v@.subrange(0, n as int) =~= v@);
    assert(acc@ + replace_spec(v@, q@, w@) =~= replace_spec(v@, q@, w@));
    while i < n
        invariant
            n == v@.len(),
            v@ == s@,
            q@ == p@,
            w@ == t@,
            i <= n,
            q@.len() > 0,
            replace_spec(v@, q@, w@) == acc@ + replace_spec(v@.subrange(i as int, n as int), q@, w@),
        decreases n - i,
    {
        let ghost rest = v@.subrange(i as int, n as int);
        if q.len() <= n - i && matches_at(&v, &q, i) {
            proof {
                assert(rest.subrange(0, q@.len() as int) =~= v@.subrange(i as int, i + q@.len()));
                assert(rest.subrange(q@.len() as int, rest.len() as int)
                    =~= v@.subrange(i + q@.len(), n as int));
            }
            let mut k: usize = 0;
            let ghost acc0 = acc@;
            while k < w.len()
                invariant
                    k <= w@.len(),
                    acc@ == acc0 + w@.subrange(0, k as int),
                decreases w.len() - k,
            {
                acc.push(w[k]);
                assert(w@.subrange(0, k + 1) =~= w@.subrange(0, k as int).push(w@[k as int]));
                k = k + 1;
            }
            assert(w@.subrange(0, w@.len() as int) =~= w@);
            assert(acc@ + replace_spec(v@.subrange(i + q@.len(), n as int), q@, w@)
                =~= acc0 + (w@ + replace_spec(v@.subrange(i + q@.len(), n as int), q@, w@)));
            i = i + q.len();
        } else if q.len() > n - i {
            assert(replace_spec(rest, q@, w@) == rest);
            while i < n
                invariant
                    n == v@.len(),
                    v@ == s@,
                    q@ == p@,
                    w@ == t@,
                    i <= n,
                    replace_spec(v@, q@, w@) == acc@ + v@.subrange(i as int, n as int),
                decreases n - i,
            {
                assert(v@.subrange(i as int, n as int) =~= seq![v@[i as int]] + v@.subrange(i + 1, n as int));
                acc.push(v[i]);
                assert(acc@ + v@.subrange(i + 1, n as int) =~= (acc@.drop_last() + seq![v@[i as int]]) + v@.subrange(i + 1, n as int));
                i = i + 1;
            }
            assert(v@.subrange(n as int, n as int) =~= Seq::<char>::empty());
            assert(acc@ + Seq::<char>::empty() =~= acc@);
            return string_of(&acc);
        } else {
            proof {
                assert(rest.subrange(0, q@.len() as int) =~= v@.subrange(i as int, i + q@.len()));
                assert(rest.drop_first() =~= v@.subrange(i + 1, n as int));
                assert(rest[0] == v@[i as int]);
            }
            let ghost acc0 = acc@;
            acc.push(v[i]);
            assert(acc@ + replace_spec(v@.subrange(i + 1, n as int), q@, w@)
                =~= acc0 + (seq![v@[i as int]] + replace_spec(v@.subrange(i + 1, n as int), q@, w@)));
            i = i + 1;
        }
    }
    proof {
        assert(v@.subrange(n as int, n as int) =~= Seq::<char>::empty());
        assert(acc@ + Seq::<char>::empty() =~= acc@);
    }
    string_of(&acc)
}

/// The pieces of `s` between the occurrences of `c` (`str::split`).
pub fn split(s: &str, c: char) -> (r: Vec<String>)
    ensures
        views(r@) == split_spec(s@, c),
        r@.len() >= 1,
{
    let v = chars_of(s);
    let n = v.len();
    let mut pieces: Vec<String> = Vec::new();
    let mut cur: Vec<char> = Vec::new();
    let mut i: usize = 0;
    assert(v@.subrange(0, 0) =~= Seq::<char>::empty());
    assert(views(pieces@).push(cur@) =~= seq![Seq::<char>::empty()]);
    while i < n
        invariant
            n == v@.len(),
            i <= n,
            views(pieces@).push(cur@) == split_spec(v@.subrange(0, i as int), c),
        decreases n - i,
    {
        let ghost pre = v@.subrange(0, i as int);
        let ghost post = v@.subrange(0, i + 1);
        assert(post.drop_last() =~= pre);
        assert(post.last() == v@[i as int]);
        if v[i] == c {
            let piece = string_of(&cur);
            pieces.push(piece);
            cur = Vec::new();
            assert(views(pieces@).push(cur@) =~= split_spec(pre, c).push(Seq::<char>::empty()));
        } else {
            let ghost old_cur = cur@;
            cur.push(v[i]);
            let ghost init = split_spec(pre, c);
            assert(views(pieces@).push(cur@) =~= init.update(init.len() - 1, init.last().push(v@[i as int])));
        }
        i = i + 1;
    }
    let piece = string_of(&cur);
    let ghost before = views(pieces@).push(cur@);
    pieces.push(piece);
    assert(v@.subrange(0, n as int) =~= v@);
    assert(views(pieces@) =~= before);
    pieces
}

/// The parts joined with `sep` between each two of them (`[String]::join`).
pub fn join(parts: &Vec<String>, sep: &str) -> (r: String)
    ensures
        r@ == join_spec(views(parts@), sep@),
{
    let mut r = String::new();
    let n = parts.len();
    let mut i: usize = 0;
    while i < n
        invariant
            n == parts@.len(),
            i <= n,
            r@ == join_spec(views(parts@).take(i as int), sep@),
        decreases n - i,
    {
        let ghost all = views(parts@);
        assert(all.take(i + 1).drop_last() =~= all.take(i as int));
        assert(all.take(i + 1).last() == parts@[i as int]@);
        if i != 0 {
            r.append(sep);
        }
        r.append(parts[i].as_str());
        i = i + 1;
    }
    assert(views(parts@).take(n as int) =~= views(parts@));
    r
}

/// The decimal digits of `n`.
fn digits(n: u64) -> (v: Vec<char>)
    ensures
        v@ == digits_spec(n as nat),
    decreases n,
{
    let d = (n % 10) as u8;
    let ch = (d + 48) as char;
    assert(ch == digit_char((n % 10) as int));
    if n < 10 {
        let mut v: Vec<char> = Vec::new();
        v.push(ch);
        assert(v@ =~= seq![digit_char(n as int)]);
        v
    } else {
        let mut v = digits(n / 10);
        v.push(ch);
        v
    }
}

/// How an `i32` is displayed (`i32::to_string`).
pub fn decimal(n: i32) -> (s: String)
    ensures
        s@ == decimal_spec(n as int),
{
    if n < 0 {
        let m: i64 = -(n as i64);
        let d = digits(m as u64);
        let mut s = String::new();
        push_char(&mut s, '-');
        let t = string_of(&d);
        s.append(t.as_str());
        s
    } else {
        let d = digits(n as u64);
        string_of(&d)
    }
}


// ---------------------------------------------------------------------------
// Laws of the text operations
// ---------------------------------------------------------------------------

/// Removing a prefix that is there gives back what followed it.
pub proof fn lemma_strip_prefix_concat(p: Seq<char>, s: Seq<char>)
    ensures
        strip_prefix_or_self_spec(p + s, p) == s,
{
    assert((p + s).subrange(0, p.len() as int) =~= p);
    assert((p + s).subrange(p.len() as int, (p + s).len() as int) =~= s);
}

/// Replacing a pattern that does not occur changes nothing.
pub proof fn lemma_replace_absent(s: Seq<char>, p: Seq<char>, t: Seq<char>)
    requires
        p.len() > 0,
        forall|i: int| !occurs_at(s, p, i),
    ensures
        replace_spec(s, p, t) == s,
    decreases s.len(),
{
    if s.len() >= p.len() {
        assert(!occurs_at(s, p, 0));
        let r = s.drop_first();
        assert forall|i: int| !occurs_at(r, p, i) by {
            if occurs_at(r, p, i) {
                assert(s.subrange(i + 1, i + 1 + p.len()) =~= r.subrange(i, i + p.len()));
                assert(occurs_at(s, p, i + 1));
            }
        }
        lemma_replace_absent(r, p, t);
        assert(seq![s[0]] + r =~= s);
    }
}

/// A text that begins with the pattern has it replaced first.
pub proof fn lemma_replace_leading(p: Seq<char>, rest: Seq<char>, t: Seq<char>)
    requires
        p.len() > 0,
    ensures
        replace_spec(p + rest, p, t) == t + replace_spec(rest, p, t),
{
    let s = p + rest;
    assert(s.subrange(0, p.len() as int) =~= p);
    assert(s.subrange(p.len() as int, s.len() as int) =~= rest);
}


/// No piece of a split holds the separator.
pub proof fn lemma_split_pieces_lack(s: Seq<char>, c: char)
    ensures
        split_spec(s, c).len() >= 1,
        forall|i: int, j: int|
            0 <= i < split_spec(s, c).len() && 0 <= j < split_spec(s, c)[i].len()
                ==> #[trigger] split_spec(s, c)[i][j] != c,
    decreases s.len(),
{
    if s.len() > 0 {
        lemma_split_pieces_lack(s.drop_last(), c);
        let init = split_spec(s.drop_last(), c);
        let r = split_spec(s, c);
        if s.last() != c {
            assert forall|i: int, j: int| 0 <= i < r.len() && 0 <= j < r[i].len() implies #[trigger] r[i][j] != c by {
                if i == init.len() - 1 {
                    if j < init.last().len() {
                        assert(r[i][j] == init.last()[j]);
                    } else {
                        assert(r[i][j] == s.last());
                    }
                } else {
                    assert(r[i] == init[i]);
                }
            }
        } else {
            assert forall|i: int, j: int| 0 <= i < r.len() && 0 <= j < r[i].len() implies #[trigger] r[i][j] != c by {
                if i < init.len() {
                    assert(r[i] == init[i]);
                }
            }
        }
    }
}


// ---------------------------------------------------------------------------
// Numbers written in text
// ---------------------------------------------------------------------------

/// `c` is an ASCII digit.
pub open spec fn is_digit(c: char) -> bool {
    '0' <= c && c <= '9'
}

/// Where the run of digits that starts at `i` ends.
pub open spec fn digits_end(s: Seq<char>, i: int) -> int
    decreases s.len() - i,
{
    if 0 <= i < s.len() && is_digit(s[i]) {
        digits_end(s, i + 1)
    } else {
        i
    }
}

/// The index of the first digit at or after `i`.
pub open spec fn first_digit_from(s: Seq<char>, i: int) -> Option<int>
    decreases s.len() - i,
{
    if i < 0 || i >= s.len() {
        None
    } else if is_digit(s[i]) {
        Some(i)
    } else {
        first_digit_from(s, i + 1)
    }
}

/// The first decimal number written in `s`: its first run of digits,
/// followed by a point and the digits after it when a digit follows the
/// point; `None` when `s` has no digit.
pub open spec fn first_number_spec(s: Seq<char>) -> Option<Seq<char>> {
    match first_digit_from(s, 0) {
        Some(a) => {
            let e = digits_end(s, a);
            if e + 1 < s.len() && s[e] == '.' && is_digit(s[e + 1]) {
                Some(s.subrange(a, digits_end(s, e + 1)))
            } else {
                Some(s.subrange(a, e))
            }
        },
        None => None,
    }
}

/// A run of digits stays inside the text.
proof fn lemma_digits_end_bounds(s: Seq<char>, i: int)
    requires
        0 <= i <= s.len(),
    ensures
        i <= digits_end(s, i) <= s.len(),
    decreases s.len() - i,
{
    if i < s.len() && is_digit(s[i]) {
        lemma_digits_end_bounds(s, i + 1);
    }
}

/// The first digit found lies inside the text.
proof fn lemma_first_digit_bounds(s: Seq<char>, i: int)
    requires
        0 <= i,
    ensures
        first_digit_from(s, i) matches Some(a) ==> i <= a < s.len(),
    decreases s.len() - i,
{
    if i < s.len() && !is_digit(s[i]) {
        lemma_first_digit_bounds(s, i + 1);
    }
}

/// Where the run of digits of `v` that starts at `i` ends.
fn scan_digits(v: &Vec<char>, i: usize) -> (e: usize)
    requires
        i <= v@.len(),
    ensures
        e as int == digits_end(v@, i as int),
{
    let n = v.len();
    let mut e = i;
    while e < n && '0' <= v[e] && v[e] <= '9'
        invariant
            n == v@.len(),
            i <= e <= n,
            digits_end(v@, i as int) == digits_end(v@, e as int),
        decreases n - e,
    {
        e = e + 1;
    }
    e
}

/// The first decimal number written in `s`, as it is written there.
pub fn first_number(s: &str) -> (r: Option<String>)
    ensures
        opt_string(r) == first_number_spec(s@),
{
    let v = chars_of(s);
    let n = v.len();
    let mut a: usize = 0;
    while a < n && !('0' <= v[a] && v[a] <= '9')
        invariant
            n == v@.len(),
            a <= n,
            first_digit_from(v@, 0) == first_digit_from(v@, a as int),
        decreases n - a,
    {
        a = a + 1;
    }
    if a == n {
        return None;
    }
    let e = scan_digits(&v, a);
    proof {
        lemma_digits_end_bounds(v@, a as int);
    }
    if e < n && e + 1 < n && v[e] == '.' && '0' <= v[e + 1] && v[e + 1] <= '9' {
        let f = scan_digits(&v, e + 1);
        proof {
            lemma_digits_end_bounds(v@, e + 1);
        }
        Some(string_of_range(&v, a, f))
    } else {
        Some(string_of_range(&v, a, e))
    }
}

/// The view of an optional string.
pub open spec fn opt_string(o: Option<String>) -> Option<Seq<char>> {
    match o {
        Some(s) => Some(s@),
        None => None,
    }
}


/// `p` is found first at `k` when it occurs there and nowhere before.
pub proof fn lemma_find_first_at(s: Seq<char>, p: Seq<char>, k: int)
    requires
        0 <= k,
        occurs_at(s, p, k),
        forall|i: int| 0 <= i < k ==> !occurs_at(s, p, i),
    ensures
        find_spec(s, p) == Some(k),
{
    lemma_find_from_first_at(s, p, 0, k);
}

proof fn lemma_find_from_first_at(s: Seq<char>, p: Seq<char>, i: int, k: int)
    requires
        0 <= i <= k,
        occurs_at(s, p, k),
        forall|j: int| i <= j < k ==> !occurs_at(s, p, j),
    ensures
        find_from(s, p, i) == Some(k),
    decreases k - i,
{
    if i < k {
        assert(!occurs_at(s, p, i));
        assert(i + p.len() <= s.len());
        lemma_find_from_first_at(s, p, i + 1, k);
    }
}

} // verus!
