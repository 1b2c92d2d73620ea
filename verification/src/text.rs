//! Character-level text handling shared by the cookie, URL and HTML code.
//!
//! Strings are examined as `Vec<char>` so that every search, split and trim
//! can be specified over `Seq<char>` and proved.
use vstd::prelude::*;

verus! {

/// The `White_Space` characters of Unicode, which `char::is_whitespace` and `str::trim` use.
pub open spec fn is_whitespace(c: char) -> bool {
    let n = c as u32;
    ||| 0x9 <= n <= 0xd
    ||| n == 0x20
    ||| n == 0x85
    ||| n == 0xa0
    ||| n == 0x1680
    ||| 0x2000 <= n <= 0x200a
    ||| n == 0x2028
    ||| n == 0x2029
    ||| n == 0x202f
    ||| n == 0x205f
    ||| n == 0x3000
}

/// `s` without its leading whitespace.
pub open spec fn trim_start(s: Seq<char>) -> Seq<char>
    decreases s.len(),
{
    if s.len() > 0 && is_whitespace(s[0]) {
        trim_start(s.drop_first())
    } else {
        s
    }
}

/// `s` without its trailing whitespace.
pub open spec fn trim_end(s: Seq<char>) -> Seq<char>
    decreases s.len(),
{
    if s.len() > 0 && is_whitespace(s.last()) {
        trim_end(s.drop_last())
    } else {
        s
    }
}

/// What `str::trim` returns: whitespace removed from both ends.
pub open spec fn trim(s: Seq<char>) -> Seq<char> {
    trim_end(trim_start(s))
}

/// The first index `k >= i` at which `p` occurs in `s`.
pub open spec fn find_from(s: Seq<char>, p: Seq<char>, i: int) -> Option<int>
    decreases s.len() - i,
{
    if i < 0 || i + p.len() > s.len() {
        None
    } else if p.len() == 0 {
        Some(i)
    } else if s.subrange(i, i + p.len()) == p {
        Some(i)
    } else {
        find_from(s, p, i + 1)
    }
}

/// `p` occurs somewhere in `s`.
pub open spec fn contains(s: Seq<char>, p: Seq<char>) -> bool {
    find_from(s, p, 0) is Some
}

/// The decimal digit character for `d` in `0..10`.
pub open spec fn digit_char(d: int) -> char {
    ((48 + d) as u32) as char
}

/// The decimal representation of a natural number, without leading zeros.
pub open spec fn nat_decimal(n: nat) -> Seq<char>
    decreases n,
{
    if n < 10 {
        seq![digit_char(n as int)]
    } else {
        nat_decimal(n / 10).push(digit_char((n % 10) as int))
    }
}

/// The decimal representation of an integer, with a `-` for negative values.
pub open spec fn int_decimal(n: int) -> Seq<char> {
    if n < 0 {
        seq!['-'] + nat_decimal((-n) as nat)
    } else {
        nat_decimal(n as nat)
    }
}

pub open spec fn is_ascii_digit(c: char) -> bool {
    '0' <= c <= '9'
}

/// The value of a non-empty run of decimal digits.
pub open spec fn digits_value(d: Seq<char>) -> int
    decreases d.len(),
{
    if d.len() == 0 {
        0
    } else {
        digits_value(d.drop_last()) * 10 + (d.last() as int - 48)
    }
}

pub open spec fn all_digits(d: Seq<char>) -> bool {
    d.len() > 0 && forall|i: int| 0 <= i < d.len() ==> is_ascii_digit(#[trigger] d[i])
}

/// The integer that `str::parse::<i64>` reads from `s`, before the range check:
/// an optional sign followed by one or more ASCII digits.
pub open spec fn integer_text_value(s: Seq<char>) -> Option<int> {
    if s.len() > 0 && s[0] == '-' {
        if all_digits(s.drop_first()) {
            Some(-digits_value(s.drop_first()))
        } else {
            None
        }
    } else if s.len() > 0 && s[0] == '+' {
        if all_digits(s.drop_first()) {
            Some(digits_value(s.drop_first()))
        } else {
            None
        }
    } else if all_digits(s) {
        Some(digits_value(s))
    } else {
        None
    }
}

/// What `str::parse::<i64>` returns for `s`.
pub open spec fn parse_i64_spec(s: Seq<char>) -> Option<i64> {
    match integer_text_value(s) {
        Some(v) => if i64::MIN <= v <= i64::MAX {
            Some(v as i64)
        } else {
            None
        },
        None => None,
    }
}

/// What `str::parse::<bool>` returns for `s`.
pub open spec fn parse_bool_spec(s: Seq<char>) -> Option<bool> {
    if s == seq!['t', 'r', 'u', 'e'] {
        Some(true)
    } else if s == seq!['f', 'a', 'l', 's', 'e'] {
        Some(false)
    } else {
        None
    }
}

/// ASCII letters lowered, every other character kept.
pub open spec fn ascii_lower_char(c: char) -> char {
    if 'A' <= c <= 'Z' {
        ((c as u32) + 32) as char
    } else {
        c
    }
}

pub open spec fn ascii_lower(s: Seq<char>) -> Seq<char> {
    s.map_values(|c: char| ascii_lower_char(c))
}

/// The characters of an optional text.
/// The characters of an optional text.
pub open spec fn opt_str_view(t: Option<&str>) -> Option<Seq<char>> {
    match t {
        Some(x) => Some(x@),
        None => None,
    }
}

pub open spec fn opt_view(o: Option<String>) -> Option<Seq<char>> {
    match o {
        Some(s) => Some(s@),
        None => None,
    }
}

/// The characters of each text of a list.
pub open spec fn texts_view(v: Seq<String>) -> Seq<Seq<char>> {
    v.map_values(|s: String| s@)
}

/// A copy of an optional text.
pub fn copy_opt(o: &Option<String>) -> (r: Option<String>)
    ensures
        opt_view(r) == opt_view(*o),
{
    match o {
        Some(s) => Some(s.clone()),
        None => None,
    }
}

/// A copy of a list of texts.
pub fn copy_texts(v: &Vec<String>) -> (r: Vec<String>)
    ensures
        texts_view(r@) == texts_view(v@),
{
    let mut r: Vec<String> = Vec::new();
    for i in 0..v.len()
        invariant
            r.len() == i,
            forall|j: int| 0 <= j < i ==> (#[trigger] r@[j])@ == v@[j]@,
    {
        r.push(v[i].clone());
    }
    assert(texts_view(r@) =~= texts_view(v@));
    r
}

/// Whether `v` holds a text equal to `t`.
pub fn texts_contain(v: &Vec<String>, t: &String) -> (b: bool)
    ensures
        b == texts_view(v@).contains(t@),
{
    for i in 0..v.len()
        invariant
            forall|j: int| 0 <= j < i ==> (#[trigger] v@[j])@ != t@,
    {
        if v[i] == *t {
            assert(texts_view(v@)[i as int] == t@);
            return true;
        }
    }
    proof {
        if texts_view(v@).contains(t@) {
            let k = choose|k: int| 0 <= k < texts_view(v@).len() && texts_view(v@)[k] == t@;
            assert(v@[k]@ == t@);
        }
    }
    false
}

/// Appends one character; `String::push`.
#[verifier::external_body]
pub(crate) fn push_char(s: &mut String, c: char)
    ensures
        final(s)@ == old(s)@.push(c),
{
    s.push(c);
}

/// The characters of `s`, in order.
pub fn chars_of(s: &str) -> (v: Vec<char>)
    ensures
        v@ == s@,
{
    let mut v: Vec<char> = Vec::new();
    for c in it: s.chars()
        invariant
            v@ == it.seq().take(it.index() as int),
            it.seq() == s@,
    {
        v.push(c);
    }
    v
}

/// A `String` holding exactly the characters of `v`.
pub fn string_of(v: &Vec<char>) -> (s: String)
    ensures
        s@ == v@,
{
    let mut s = String::new();
    for i in 0..v.len()
        invariant
            s@ == v@.take(i as int),
    {
        push_char(&mut s, v[i]);
        assert(v@.take(i + 1) == v@.take(i as int).push(v@[i as int]));
    }
    assert(v@.take(v.len() as int) == v@);
    s
}

/// Appends the characters of `t` to `s`.
pub fn push_str(s: &mut String, t: &str)
    ensures
        final(s)@ == old(s)@ + t@,
{
    let cs = chars_of(t);
    for i in 0..cs.len()
        invariant
            s@ == old(s)@ + cs@.take(i as int),
            cs@ == t@,
    {
        push_char(s, cs[i]);
        assert(cs@.take(i + 1) == cs@.take(i as int).push(cs@[i as int]));
    }
    assert(cs@.take(cs.len() as int) == cs@);
}

/// An owned copy of `s`.
pub fn owned(s: &str) -> (r: String)
    ensures
        r@ == s@,
{
    let mut r = String::new();
    push_str(&mut r, s);
    r
}

pub fn is_whitespace_char(c: char) -> (b: bool)
    ensures
        b == is_whitespace(c),
{
    let n = c as u32;
    (0x9 <= n && n <= 0xd) || n == 0x20 || n == 0x85 || n == 0xa0 || n == 0x1680 || (0x2000 <= n
        && n <= 0x200a) || n == 0x2028 || n == 0x2029 || n == 0x202f || n == 0x205f || n == 0x3000
}

/// The characters of `v` from `lo` up to `hi`.
pub fn slice_chars(v: &Vec<char>, lo: usize, hi: usize) -> (r: Vec<char>)
    requires
        lo <= hi <= v.len(),
    ensures
        r@ == v@.subrange(lo as int, hi as int),
{
    let mut r: Vec<char> = Vec::new();
    let mut i = lo;
    while i < hi
        invariant
            lo <= i <= hi <= v.len(),
            r@ == v@.subrange(lo as int, i as int),
        decreases hi - i,
    {
        r.push(v[i]);
        assert(v@.subrange(lo as int, i + 1) == v@.subrange(lo as int, i as int).push(v@[i as int]));
        i = i + 1;
    }
    r
}

/// Equality of two character sequences.
pub fn chars_eq(a: &Vec<char>, b: &Vec<char>) -> (r: bool)
    ensures
        r == (a@ == b@),
{
    if a.len() != b.len() {
        return false;
    }
    for i in 0..a.len()
        invariant
            a.len() == b.len(),
            forall|j: int| 0 <= j < i ==> a@[j] == b@[j],
    {
        if a[i] != b[i] {
            return false;
        }
    }
    assert(a@ == b@);
    true
}

proof fn lemma_trim_start_step(s: Seq<char>, i: int)
    requires
        0 <= i < s.len(),
        is_whitespace(s[i]),
    ensures
        trim_start(s.subrange(i, s.len() as int)) == trim_start(s.subrange(i + 1, s.len() as int)),
{
    let t = s.subrange(i, s.len() as int);
    assert(t.drop_first() == s.subrange(i + 1, s.len() as int));
}

proof fn lemma_trim_end_step(s: Seq<char>, j: int)
    requires
        0 < j <= s.len(),
        is_whitespace(s[j - 1]),
    ensures
        trim_end(s.subrange(0, j)) == trim_end(s.subrange(0, j - 1)),
{
    let t = s.subrange(0, j);
    assert(t.drop_last() == s.subrange(0, j - 1));
}

/// `v` with its leading and trailing whitespace removed; `str::trim`.
pub fn trim_chars(v: &Vec<char>) -> (r: Vec<char>)
    ensures
        r@ == trim(v@),
{
    let n = v.len();
    let mut lo: usize = 0;
    assert(v@.subrange(0, n as int) == v@);
    while lo < n && is_whitespace_char(v[lo])
        invariant
            lo <= n == v.len(),
            trim_start(v@) == trim_start(v@.subrange(lo as int, n as int)),
        decreases n - lo,
    {
        proof {
            lemma_trim_start_step(v@, lo as int);
        }
        lo = lo + 1;
    }
    let ghost ts = v@.subrange(lo as int, n as int);
    assert(trim_start(ts) == ts);
    let mut hi: usize = n;
    assert(ts.subrange(0, ts.len() as int) == ts);
    while hi > lo && is_whitespace_char(v[hi - 1])
        invariant
            lo <= hi <= n == v.len(),
            ts == v@.subrange(lo as int, n as int),
            trim_end(ts) == trim_end(v@.subrange(lo as int, hi as int)),
        decreases hi - lo,
    {
        proof {
            let k = (hi - lo) as int;
            assert(ts.subrange(0, k) == v@.subrange(lo as int, hi as int));
            assert(ts.subrange(0, k - 1) == v@.subrange(lo as int, hi - 1));
            lemma_trim_end_step(v@.subrange(lo as int, hi as int), k);
            assert(v@.subrange(lo as int, hi as int).subrange(0, k - 1) == v@.subrange(
                lo as int,
                hi - 1,
            ));
            assert(v@.subrange(lo as int, hi as int).subrange(0, k) == v@.subrange(
                lo as int,
                hi as int,
            ));
        }
        hi = hi - 1;
    }
    let r = slice_chars(v, lo, hi);
    r
}

/// Whether `p` occurs in `v` at index `k`.
fn occurs_at(v: &Vec<char>, p: &Vec<char>, k: usize) -> (b: bool)
    requires
        k + p.len() <= v.len(),
    ensures
        b == (v@.subrange(k as int, k + p.len()) == p@),
{
    for j in 0..p.len()
        invariant
            k + p.len() <= v.len(),
            forall|m: int| 0 <= m < j ==> v@[k + m] == p@[m],
    {
        if v[k + j] != p[j] {
            assert(v@.subrange(k as int, k + p.len())[j as int] != p@[j as int]);
            return false;
        }
    }
    assert(v@.subrange(k as int, k + p.len()) == p@);
    true
}

/// The first index at or after `from` where `p` occurs in `v`.
pub fn find_chars(v: &Vec<char>, p: &Vec<char>, from: usize) -> (r: Option<usize>)
    ensures
        r matches Some(k) ==> find_from(v@, p@, from as int) == Some(k as int),
        r is None ==> find_from(v@, p@, from as int) is None,
{
    let mut k = from;
    if p.len() == 0 {
        if k <= v.len() {
            return Some(k);
        } else {
            return None;
        }
    }
    while k < v.len() && p.len() <= v.len() - k
        invariant
            p.len() > 0,
            from <= k,
            find_from(v@, p@, from as int) == find_from(v@, p@, k as int),
        decreases v.len() - k,
    {
        if occurs_at(v, p, k) {
            return Some(k);
        }
        k = k + 1;
    }
    None
}

/// Whether `p` occurs in `v`; `str::contains`.
pub fn contains_chars(v: &Vec<char>, p: &Vec<char>) -> (b: bool)
    ensures
        b == contains(v@, p@),
{
    find_chars(v, p, 0).is_some()
}


/// Where `find_from` lands: at or after the start, with `p` really there.
pub proof fn lemma_find_from_bounds(s: Seq<char>, p: Seq<char>, k: int)
    requires
        find_from(s, p, k) is Some,
    ensures
        0 <= k <= find_from(s, p, k)->0,
        find_from(s, p, k)->0 + p.len() <= s.len(),
        s.subrange(find_from(s, p, k)->0, find_from(s, p, k)->0 + p.len()) == p,
    decreases s.len() - k,
{
    if k < 0 || k + p.len() > s.len() {
    } else if p.len() == 0 {
        assert(s.subrange(k, k) =~= p);
    } else if s.subrange(k, k + p.len()) == p {
    } else {
        lemma_find_from_bounds(s, p, k + 1);
    }
}

/// Searching from `k` in `s` is searching from `k - d` in `s` without its first `d` characters.
pub proof fn lemma_find_shift(s: Seq<char>, p: Seq<char>, d: int, k: int)
    requires
        0 <= d <= k,
        d <= s.len(),
    ensures
        find_from(s, p, k) == (match find_from(s.subrange(d, s.len() as int), p, k - d) {
            Some(x) => Some(x + d),
            None => None::<int>,
        }),
    decreases s.len() - k,
{
    let t = s.subrange(d, s.len() as int);
    if k + p.len() > s.len() {
    } else if p.len() == 0 {
    } else {
        assert(t.subrange(k - d, k - d + p.len()) =~= s.subrange(k, k + p.len()));
        if s.subrange(k, k + p.len()) != p {
            lemma_find_shift(s, p, d, k + 1);
        }
    }
}

/// Appends the decimal digits of `n` to `out`.
fn push_decimal(out: &mut String, n: u64)
    ensures
        final(out)@ == old(out)@ + nat_decimal(n as nat),
    decreases n,
{
    if n < 10 {
        push_char(out, ((48 + n) as u8) as char);
        assert(((48 + n) as u8) as char == digit_char(n as int)) by {
            assert(((48 + n) as u8) as u32 == (48 + n) as u32);
        }
    } else {
        push_decimal(out, n / 10);
        let d = n % 10;
        push_char(out, ((48 + d) as u8) as char);
        assert(((48 + d) as u8) as char == digit_char(d as int)) by {
            assert(((48 + d) as u8) as u32 == (48 + d) as u32);
        }
    }
}

/// The decimal text of `n`, as `u64`'s `Display` writes it.
pub fn decimal(n: u64) -> (s: String)
    ensures
        s@ == nat_decimal(n as nat),
{
    let mut s = String::new();
    push_decimal(&mut s, n);
    s
}


/// `str::parse::<bool>`.
pub fn parse_bool(s: &str) -> (r: Option<bool>)
    ensures
        r == parse_bool_spec(s@),
{
    let v = chars_of(s);
    if v.len() == 4 && v[0] == 't' && v[1] == 'r' && v[2] == 'u' && v[3] == 'e' {
        assert(v@ == seq!['t', 'r', 'u', 'e']);
        Some(true)
    } else if v.len() == 5 && v[0] == 'f' && v[1] == 'a' && v[2] == 'l' && v[3] == 's' && v[4]
        == 'e' {
        assert(v@ == seq!['f', 'a', 'l', 's', 'e']);
        Some(false)
    } else {
        proof {
            if v@ == seq!['t', 'r', 'u', 'e'] {
                assert(v@[0] == 't' && v@[3] == 'e');
            }
            if v@ == seq!['f', 'a', 'l', 's', 'e'] {
                assert(v@[0] == 'f' && v@[4] == 'e');
            }
        }
        None
    }
}

proof fn lemma_digits_nonneg(d: Seq<char>)
    requires
        forall|i: int| 0 <= i < d.len() ==> is_ascii_digit(#[trigger] d[i]),
    ensures
        digits_value(d) >= 0,
    decreases d.len(),
{
    if d.len() > 0 {
        lemma_digits_nonneg(d.drop_last());
        assert(is_ascii_digit(d[d.len() - 1]));
    }
}

proof fn lemma_digits_monotone(d: Seq<char>, k: int)
    requires
        0 <= k <= d.len(),
        forall|i: int| 0 <= i < d.len() ==> is_ascii_digit(#[trigger] d[i]),
    ensures
        digits_value(d.subrange(0, k)) <= digits_value(d),
    decreases d.len(),
{
    if k < d.len() {
        let e = d.drop_last();
        assert(forall|i: int| 0 <= i < e.len() ==> is_ascii_digit(#[trigger] e[i]) ) by {
            assert forall|i: int| 0 <= i < e.len() implies is_ascii_digit(#[trigger] e[i]) by {
                assert(e[i] == d[i]);
            }
        }
        lemma_digits_monotone(e, k);
        assert(e.subrange(0, k) == d.subrange(0, k));
        lemma_digits_nonneg(e);
        assert(is_ascii_digit(d[d.len() - 1]));
    } else {
        assert(d.subrange(0, k) == d);
    }
}

proof fn lemma_bound_step(acc: int, d: int, limit: int)
    requires
        0 <= d < 10,
        0 <= acc,
        d <= limit,
    ensures
        (acc > (limit - d) / 10) == (acc * 10 + d > limit),
{
    assert((acc > (limit - d) / 10) == (acc * 10 + d > limit)) by (nonlinear_arith)
        requires
            0 <= d < 10,
            0 <= acc,
            d <= limit,
    ;
}

/// `str::parse::<i64>`: an optional sign, then one or more ASCII digits, within range.
pub fn parse_i64(s: &str) -> (r: Option<i64>)
    ensures
        r == parse_i64_spec(s@),
{
    let v = chars_of(s);
    let n = v.len();
    if n == 0 {
        return None;
    }
    let neg = v[0] == '-';
    let start: usize = if v[0] == '-' || v[0] == '+' {
        1
    } else {
        0
    };
    let ghost body = v@.subrange(start as int, n as int);
    proof {
        if start == 1 {
            assert(v@.drop_first() == body);
        } else {
            assert(v@ == body);
        }
    }
    if start == n {
        assert(body.len() == 0);
        return None;
    }
    let limit: u64 = 9223372036854775808;
    let mut acc: u64 = 0;
    let mut i = start;
    assert(v@.subrange(start as int, start as int) =~= Seq::<char>::empty());
    while i < n
        invariant
            start <= i <= n == v.len(),
            start < n,
            v@ == s@,
            start == 1 ==> v@.drop_first() == body,
            start == 0 ==> v@ == body,
            start == (if v@[0] == '-' || v@[0] == '+' { 1usize } else { 0usize }),
            neg == (v@[0] == '-'),
            body == v@.subrange(start as int, n as int),
            acc as int == digits_value(v@.subrange(start as int, i as int)),
            acc <= limit,
            limit == 9223372036854775808u64,
            forall|j: int| start <= j < i ==> is_ascii_digit(#[trigger] v@[j]),
        decreases n - i,
    {
        let c = v[i];
        if !('0' <= c && c <= '9') {
            proof {
                assert(body[i - start] == c);
                assert(!all_digits(body));
            }
            return None;
        }
        assert(48 <= (c as u32) <= 57);
        let d = ((c as u32) - 48) as u64;
        let ghost pre = v@.subrange(start as int, i as int);
        let ghost next = v@.subrange(start as int, i + 1);
        proof {
            assert(next.drop_last() == pre);
            assert(next.last() == c);
            lemma_bound_step(acc as int, d as int, limit as int);
        }
        if acc > (limit - d) / 10 {
            proof {
                if all_digits(body) {
                    lemma_digits_monotone(body, (i + 1 - start) as int);
                    assert(body.subrange(0, (i + 1 - start) as int) == next);
                }
            }
            return None;
        }
        acc = acc * 10 + d;
        i = i + 1;
    }
    assert(v@.subrange(start as int, n as int) == body);
    assert(all_digits(body));
    if neg {
        if acc == limit {
            Some(-9223372036854775807i64 - 1)
        } else {
            Some(-(acc as i64))
        }
    } else {
        if acc == limit {
            None
        } else {
            Some(acc as i64)
        }
    }
}

/// What `str::parse::<u64>` returns for `s`: an optional `+`, then one or more ASCII
/// digits, within range.
pub open spec fn parse_u64_spec(s: Seq<char>) -> Option<u64> {
    if s.len() > 0 && s[0] == '-' {
        None
    } else {
        match integer_text_value(s) {
            Some(v) => if 0 <= v <= u64::MAX {
                Some(v as u64)
            } else {
                None
            },
            None => None,
        }
    }
}

/// `str::parse::<u64>`.
pub fn parse_u64(s: &str) -> (r: Option<u64>)
    ensures
        r == parse_u64_spec(s@),
{
    let v = chars_of(s);
    let n = v.len();
    if n == 0 {
        return None;
    }
    if v[0] == '-' {
        return None;
    }
    let start: usize = if v[0] == '+' {
        1
    } else {
        0
    };
    let ghost body = v@.subrange(start as int, n as int);
    proof {
        if start == 1 {
            assert(v@.drop_first() == body);
        } else {
            assert(v@ == body);
        }
    }
    if start == n {
        assert(body.len() == 0);
        return None;
    }
    let limit: u64 = 18446744073709551615;
    let mut acc: u64 = 0;
    let mut i = start;
    assert(v@.subrange(start as int, start as int) =~= Seq::<char>::empty());
    while i < n
        invariant
            start <= i <= n == v.len(),
            start < n,
            v@ == s@,
            v@[0] != '-',
            start == 1 ==> v@.drop_first() == body,
            start == 0 ==> v@ == body,
            start == (if v@[0] == '+' { 1usize } else { 0usize }),
            body == v@.subrange(start as int, n as int),
            acc as int == digits_value(v@.subrange(start as int, i as int)),
            limit == 18446744073709551615u64,
            forall|j: int| start <= j < i ==> is_ascii_digit(#[trigger] v@[j]),
        decreases n - i,
    {
        let c = v[i];
        if !('0' <= c && c <= '9') {
            proof {
                assert(body[i - start] == c);
                assert(!all_digits(body));
            }
            return None;
        }
        assert(48 <= (c as u32) <= 57);
        let d = ((c as u32) - 48) as u64;
        let ghost pre = v@.subrange(start as int, i as int);
        let ghost next = v@.subrange(start as int, i + 1);
        proof {
            assert(next.drop_last() == pre);
            assert(next.last() == c);
            lemma_bound_step(acc as int, d as int, limit as int);
        }
        if acc > (limit - d) / 10 {
            proof {
                if all_digits(body) {
                    lemma_digits_monotone(body, (i + 1 - start) as int);
                    assert(body.subrange(0, (i + 1 - start) as int) == next);
                }
            }
            return None;
        }
        acc = acc * 10 + d;
        i = i + 1;
    }
    assert(v@.subrange(start as int, n as int) == body);
    assert(all_digits(body));
    Some(acc)
}

/// The pieces of `s` between commas.
pub open spec fn split_commas(s: Seq<char>) -> Seq<Seq<char>>
    decreases s.len(),
{
    match find_from(s, seq![','], 0) {
        None => seq![s],
        Some(i) => {
            if 0 <= i < s.len() {
                seq![s.subrange(0, i)] + split_commas(s.subrange(i + 1, s.len() as int))
            } else {
                seq![s]
            }
        },
    }
}

/// Whether `v`, with its ASCII letters lower-cased, is `word`; `eq_ignore_ascii_case`
/// for a lower-case `word`.
pub fn ascii_lower_eq(v: &Vec<char>, word: &str) -> (b: bool)
    ensures
        b == (ascii_lower(v@) == word@),
{
    let w = chars_of(word);
    if v.len() != w.len() {
        return false;
    }
    for i in 0..v.len()
        invariant
            v.len() == w.len(),
            w@ == word@,
            forall|j: int| 0 <= j < i ==> ascii_lower(v@)[j] == w@[j],
    {
        let c = v[i];
        let lc = if 'A' <= c && c <= 'Z' {
            (((c as u32) + 32) as u8) as char
        } else {
            c
        };
        assert(lc == ascii_lower(v@)[i as int]) by {
            if 'A' <= c && c <= 'Z' {
                assert((((c as u32) + 32) as u8) as u32 == (c as u32) + 32);
            }
        }
        if lc != w[i] {
            return false;
        }
    }
    assert(ascii_lower(v@) == w@);
    true
}

/// The pieces of `value` between commas, each trimmed; `split(',')` then `trim`.
pub fn split_trimmed(value: &str) -> (r: Vec<String>)
    ensures
        texts_view(r@) == split_commas(value@).map_values(|p: Seq<char>| trim(p)),
{
    let v = chars_of(value);
    let comma: Vec<char> = vec![','];
    assert(comma@ == seq![',']);
    let mut out: Vec<String> = Vec::new();
    let mut start: usize = 0;
    let ghost whole = v@;
    assert(whole.subrange(0, whole.len() as int) =~= whole);
    loop
        invariant
            start <= v.len(),
            v@ == whole,
            whole == value@,
            comma@ == seq![','],
            split_commas(whole).map_values(|p: Seq<char>| trim(p)) == texts_view(out@)
                + split_commas(whole.subrange(start as int, whole.len() as int)).map_values(
                |p: Seq<char>| trim(p),
            ),
        decreases v.len() - start,
    {
        let rest = slice_chars(&v, start, v.len());
        let ghost rv = rest@;
        match find_chars(&rest, &comma, 0) {
            None => {
                let piece = trim_chars(&rest);
                let ghost before = texts_view(out@);
                out.push(string_of(&piece));
                proof {
                    assert(split_commas(rv) == seq![rv]);
                    assert(seq![rv].map_values(|p: Seq<char>| trim(p)) =~= seq![trim(rv)]);
                    assert(texts_view(out@) =~= before.push(trim(rv)));
                    assert(texts_view(out@) =~= split_commas(whole).map_values(|p: Seq<char>| trim(p)));
                }
                return out;
            },
            Some(i) => {
                proof {
                    lemma_find_from_bounds(rv, comma@, 0);
                    let head = rv.subrange(0, i as int);
                    let tail = rv.subrange(i + 1, rv.len() as int);
                    assert(split_commas(rv) == seq![head] + split_commas(tail));
                    assert((seq![head] + split_commas(tail)).map_values(|p: Seq<char>| trim(p))
                        =~= seq![trim(head)] + split_commas(tail).map_values(|p: Seq<char>| trim(p)));
                    assert(tail =~= whole.subrange(start + i + 1, whole.len() as int));
                }
                let head = slice_chars(&rest, 0, i);
                let piece = trim_chars(&head);
                let ghost before = texts_view(out@);
                out.push(string_of(&piece));
                proof {
                    assert(texts_view(out@) =~= before.push(trim(rv.subrange(0, i as int))));
                }
                start = start + i + 1;
            },
        }
    }
}

} // verus!
