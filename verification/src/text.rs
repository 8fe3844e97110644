use vstd::prelude::*;

verus! {

/// The characters with the Unicode `White_Space` property.
pub open spec fn is_white_space(c: char) -> bool {
    ||| ('\u{9}' <= c && c <= '\u{d}')
    ||| c == ' '
    ||| c == '\u{85}'
    ||| c == '\u{a0}'
    ||| c == '\u{1680}'
    ||| ('\u{2000}' <= c && c <= '\u{200a}')
    ||| c == '\u{2028}'
    ||| c == '\u{2029}'
    ||| c == '\u{202f}'
    ||| c == '\u{205f}'
    ||| c == '\u{3000}'
}

/// Calls `char::is_whitespace`, which is true exactly of the characters with
/// the Unicode `White_Space` property.
#[verifier::external_body]
pub(crate) fn is_whitespace(c: char) -> (b: bool)
    ensures
        b == is_white_space(c),
{
    c.is_whitespace()
}

/// What `char::is_alphabetic` answers (the Unicode `Alphabetic` property).
pub uninterp spec fn alphabetic(c: char) -> bool;

/// Calls `char::is_alphabetic`.
#[verifier::external_body]
pub(crate) fn is_alphabetic(c: char) -> (b: bool)
    ensures
        b == alphabetic(c),
{
    c.is_alphabetic()
}

/// Every character is ASCII.
pub open spec fn ascii_text(s: Seq<char>) -> bool {
    forall|i: int| 0 <= i < s.len() ==> (#[trigger] s[i] as u32) < 128
}

/// ASCII text with `A` to `Z` turned into `a` to `z`.
pub open spec fn ascii_lowered(s: Seq<char>) -> Seq<char> {
    Seq::new(s.len(), |i: int| if 'A' <= s[i] && s[i] <= 'Z' { ((s[i] as u32) + 32) as char } else { s[i] })
}

/// ASCII text with `a` to `z` turned into `A` to `Z`.
pub open spec fn ascii_raised(s: Seq<char>) -> Seq<char> {
    Seq::new(s.len(), |i: int| if 'a' <= s[i] && s[i] <= 'z' { ((s[i] as u32) - 32) as char } else { s[i] })
}

/// What `str::to_lowercase` returns for a string.
pub uninterp spec fn lowercase(s: Seq<char>) -> Seq<char>;

/// Calls `str::to_lowercase`.  Its result is named; for ASCII text it is
/// the text with each capital letter lowered, as Unicode's case mapping
/// does for ASCII.
#[verifier::external_body]
pub(crate) fn to_lowercase(s: &str) -> (r: String)
    ensures
        r@ == lowercase(s@),
        ascii_text(s@) ==> r@ == ascii_lowered(s@),
{
    s.to_lowercase()
}

/// What `str::to_uppercase` returns for a string.
pub uninterp spec fn uppercase(s: Seq<char>) -> Seq<char>;

/// Calls `str::to_uppercase`.  Its result is named; for ASCII text it is
/// the text with each small letter raised, as Unicode's case mapping does
/// for ASCII.
#[verifier::external_body]
pub(crate) fn to_uppercase(s: &str) -> (r: String)
    ensures
        r@ == uppercase(s@),
        ascii_text(s@) ==> r@ == ascii_raised(s@),
{
    s.to_uppercase()
}

/// Builds a `String` from characters (`FromIterator<char>` for `String`),
/// which holds exactly those characters in order.
#[verifier::external_body]
pub(crate) fn string_of(v: &[char]) -> (s: String)
    ensures
        s@ == v@,
{
    v.iter().collect()
}

/// An ASCII decimal digit.
pub open spec fn is_digit(c: char) -> bool {
    '0' <= c && c <= '9'
}

/// Collects the characters of a string slice.
pub fn chars_of(s: &str) -> (v: Vec<char>)
    ensures
        v@ == s@,
{
    let mut v: Vec<char> = Vec::new();
    for c in it: s.chars()
        invariant
            v@ == it.seq().take(it.index() as int),
    {
        v.push(c);
    }
    v
}

/// Copies `v[from..to]`.
pub fn sub_chars(v: &[char], from: usize, to: usize) -> (r: Vec<char>)
    requires
        from <= to <= v@.len(),
    ensures
        r@ == v@.subrange(from as int, to as int),
{
    let mut r: Vec<char> = Vec::new();
    let mut i = from;
    while i < to
        invariant
            from <= i <= to <= v@.len(),
            r@ == v@.subrange(from as int, i as int),
        decreases to - i,
    {
        r.push(v[i]);
        i = i + 1;
    }
    r
}

/// Number of leading white-space characters.
pub open spec fn leading_ws(s: Seq<char>) -> nat
    decreases s.len(),
{
    if s.len() > 0 && is_white_space(s[0]) { 1 + leading_ws(s.drop_first()) } else { 0 }
}

/// Number of trailing white-space characters.
pub open spec fn trailing_ws(s: Seq<char>) -> nat
    decreases s.len(),
{
    if s.len() > 0 && is_white_space(s.last()) { 1 + trailing_ws(s.drop_last()) } else { 0 }
}

/// `s` without leading white space (`str::trim_start`).
pub open spec fn trim_start(s: Seq<char>) -> Seq<char> {
    s.skip(leading_ws(s) as int)
}

/// `s` without trailing white space (`str::trim_end`).
pub open spec fn trim_end(s: Seq<char>) -> Seq<char> {
    s.take(s.len() - trailing_ws(s))
}

/// `s` without leading and trailing white space (`str::trim`).
pub open spec fn trim(s: Seq<char>) -> Seq<char> {
    trim_end(trim_start(s))
}

pub proof fn lemma_leading_ws(s: Seq<char>, k: int)
    requires
        0 <= k <= s.len(),
        forall|j: int| 0 <= j < k ==> is_white_space(#[trigger] s[j]),
    ensures
        k < s.len() && !is_white_space(s[k]) ==> leading_ws(s) == k,
        k == s.len() ==> leading_ws(s) == k,
    decreases k,
{
    if k > 0 {
        lemma_leading_ws(s.drop_first(), k - 1);
        assert forall|j: int| 0 <= j < k - 1 implies is_white_space(#[trigger] s.drop_first()[j]) by {
            assert(s.drop_first()[j] == s[j + 1]);
        }
    }
}

pub proof fn lemma_trailing_ws(s: Seq<char>, k: int)
    requires
        0 <= k <= s.len(),
        forall|j: int| s.len() - k <= j < s.len() ==> is_white_space(#[trigger] s[j]),
    ensures
        k < s.len() && !is_white_space(s[s.len() - 1 - k]) ==> trailing_ws(s) == k,
        k == s.len() ==> trailing_ws(s) == k,
    decreases k,
{
    if k > 0 {
        assert(s.last() == s[s.len() - 1]);
        lemma_trailing_ws(s.drop_last(), k - 1);
        assert forall|j: int| s.drop_last().len() - (k - 1) <= j < s.drop_last().len()
            implies is_white_space(#[trigger] s.drop_last()[j]) by {
            assert(s.drop_last()[j] == s[j]);
        }
    } else {
        if k < s.len() {
            assert(s.last() == s[s.len() - 1]);
        }
    }
}

/// Bounds `[start, end)` of `trim(v)` inside `v`.
pub fn trim_bounds(v: &[char]) -> (r: (usize, usize))
    ensures
        r.0 <= r.1 <= v@.len(),
        v@.subrange(r.0 as int, r.1 as int) == trim(v@),
{
    let n = v.len();
    let mut a: usize = 0;
    while a < n && is_whitespace(v[a])
        invariant
            a <= n == v@.len(),
            forall|j: int| 0 <= j < a ==> is_white_space(#[trigger] v@[j]),
        decreases n - a,
    {
        a = a + 1;
    }
    proof { lemma_leading_ws(v@, a as int); }
    let ghost t = trim_start(v@);
    assert(t == v@.subrange(a as int, n as int));
    let mut b: usize = n;
    while b > a && is_whitespace(v[b - 1])
        invariant
            a <= b <= n == v@.len(),
            t == v@.subrange(a as int, n as int),
            forall|j: int| b <= j < n ==> is_white_space(#[trigger] v@[j]),
        decreases b - a,
    {
        b = b - 1;
    }
    proof {
        assert forall|j: int| t.len() - (n - b) <= j < t.len() implies is_white_space(#[trigger] t[j]) by {
            assert(t[j] == v@[j + a]);
        }
        if b > a {
            assert(t[t.len() - 1 - (n - b)] == v@[b - 1]);
        }
        lemma_trailing_ws(t, (n - b) as int);
        assert(trim(v@) == t.take(t.len() - (n - b)));
        assert(t.take(t.len() - (n - b)) == v@.subrange(a as int, b as int));
    }
    (a, b)
}

/// The characters of `s` without leading and trailing white space.
pub fn trim_chars(v: &[char]) -> (r: Vec<char>)
    ensures
        r@ == trim(v@),
{
    let (a, b) = trim_bounds(v);
    sub_chars(v, a, b)
}


/// Index of the first `c` in `s` (`s.len()` when there is none).
pub open spec fn first_index(s: Seq<char>, c: char) -> nat
    decreases s.len(),
{
    if s.len() == 0 { 0 } else if s[0] == c { 0 } else { 1 + first_index(s.drop_first(), c) }
}

/// The two parts of `s` around `c` when `c` occurs exactly once, which is
/// when `s.split(c)` yields exactly two pieces.
pub open spec fn split_once(s: Seq<char>, c: char) -> Option<(Seq<char>, Seq<char>)> {
    let i = first_index(s, c) as int;
    if i < s.len() && !s.skip(i + 1).contains(c) {
        Some((s.take(i), s.skip(i + 1)))
    } else {
        None
    }
}

pub proof fn lemma_first_index(s: Seq<char>, c: char, k: int)
    requires
        0 <= k <= s.len(),
        forall|j: int| 0 <= j < k ==> #[trigger] s[j] != c,
        k < s.len() ==> s[k] == c,
    ensures
        first_index(s, c) == k,
        k == s.len() <==> !s.contains(c),
    decreases k,
{
    if k > 0 {
        assert forall|j: int| 0 <= j < k - 1 implies #[trigger] s.drop_first()[j] != c by {
            assert(s.drop_first()[j] == s[j + 1]);
        }
        lemma_first_index(s.drop_first(), c, k - 1);
    }
    if k < s.len() {
        assert(s.contains(c));
    } else if s.contains(c) {
        let j = choose|j: int| 0 <= j < s.len() && s[j] == c;
        assert(s[j] != c);
    }
}

/// Position of the first `c` in `v[from..to]`, or `to` when there is none.
pub fn find_char(v: &[char], from: usize, to: usize, c: char) -> (r: usize)
    requires
        from <= to <= v@.len(),
    ensures
        from <= r <= to,
        r == from + first_index(v@.subrange(from as int, to as int), c),
        r < to <==> v@.subrange(from as int, to as int).contains(c),
        r < to ==> v@[r as int] == c,
        forall|j: int| from <= j < r ==> #[trigger] v@[j] != c,
{
    let mut i = from;
    while i < to && v[i] != c
        invariant
            from <= i <= to <= v@.len(),
            forall|j: int| from <= j < i ==> #[trigger] v@[j] != c,
        decreases to - i,
    {
        i = i + 1;
    }
    proof {
        let s = v@.subrange(from as int, to as int);
        assert forall|j: int| 0 <= j < i - from implies #[trigger] s[j] != c by {
            assert(s[j] == v@[j + from]);
        }
        lemma_first_index(s, c, i - from);
    }
    i
}

/// Where `v[from..to]` splits around its only `c`: the position of that
/// `c`, or `None` when `c` does not occur exactly once.
pub fn split_once_at(v: &[char], from: usize, to: usize, c: char) -> (r: Option<usize>)
    requires
        from <= to <= v@.len(),
    ensures
        match split_once(v@.subrange(from as int, to as int), c) {
            None => r is None,
            Some(parts) => r matches Some(i) && from <= i < to
                && parts.0 == v@.subrange(from as int, i as int)
                && parts.1 == v@.subrange(i + 1, to as int),
        },
{
    let i = find_char(v, from, to, c);
    if i == to {
        return None;
    }
    let k = find_char(v, i + 1, to, c);
    let ghost s = v@.subrange(from as int, to as int);
    assert(s.skip(i - from + 1) == v@.subrange(i + 1, to as int));
    assert(s.take(i - from) == v@.subrange(from as int, i as int));
    if k < to {
        None
    } else {
        Some(i)
    }
}

/// Value of a run of decimal digits.
pub open spec fn digits_value(s: Seq<char>) -> int
    decreases s.len(),
{
    if s.len() == 0 { 0 } else { digits_value(s.drop_last()) * 10 + (s.last() as int - '0' as int) }
}

/// Every character is a decimal digit.
pub open spec fn all_digits(s: Seq<char>) -> bool {
    forall|i: int| 0 <= i < s.len() ==> is_digit(#[trigger] s[i])
}

/// The unsigned digits after an optional sign character `sign`.
pub open spec fn unsigned_body(s: Seq<char>) -> Seq<char> {
    if s.len() > 0 && s[0] == '+' { s.drop_first() } else { s }
}

/// What `str::parse::<u32>` gives: an optional `+` followed by at least one
/// decimal digit, whose value fits in a `u32`.
pub open spec fn parse_u32_spec(s: Seq<char>) -> Option<u32> {
    let body = unsigned_body(s);
    if body.len() > 0 && all_digits(body) && digits_value(body) <= u32::MAX {
        Some(digits_value(body) as u32)
    } else {
        None
    }
}

/// What `str::parse::<i32>` gives: an optional `+` or `-` followed by at
/// least one decimal digit, whose signed value fits in an `i32`.
pub open spec fn parse_i32_spec(s: Seq<char>) -> Option<i32> {
    if s.len() > 0 && s[0] == '-' {
        let body = s.drop_first();
        if body.len() > 0 && all_digits(body) && digits_value(body) <= 0x8000_0000 {
            Some((-digits_value(body)) as i32)
        } else {
            None
        }
    } else {
        let body = unsigned_body(s);
        if body.len() > 0 && all_digits(body) && digits_value(body) <= i32::MAX {
            Some(digits_value(body) as i32)
        } else {
            None
        }
    }
}

pub proof fn lemma_digits_nonneg(s: Seq<char>)
    requires
        all_digits(s),
    ensures
        digits_value(s) >= 0,
    decreases s.len(),
{
    if s.len() > 0 {
        lemma_digits_nonneg(s.drop_last());
        assert(is_digit(s[s.len() - 1]));
    }
}

/// Value of the digits `v[from..to]`, capped at `bound + 1`.
fn capped_digits(v: &[char], from: usize, to: usize, bound: u64) -> (r: Option<u128>)
    requires
        from <= to <= v@.len(),
    ensures
        r is None <==> !all_digits(v@.subrange(from as int, to as int)),
        r matches Some(x) ==> (x == if digits_value(v@.subrange(from as int, to as int)) <= bound {
            digits_value(v@.subrange(from as int, to as int))
        } else {
            bound + 1
        }),
{
    let mut i = from;
    let mut acc: u128 = 0;
    while i < to
        invariant
            from <= i <= to <= v@.len(),
            all_digits(v@.subrange(from as int, i as int)),
            acc <= bound + 1,
            acc == if digits_value(v@.subrange(from as int, i as int)) <= bound {
                digits_value(v@.subrange(from as int, i as int))
            } else {
                bound + 1
            },
        decreases to - i,
    {
        let c = v[i];
        let ghost pre = v@.subrange(from as int, i as int);
        let ghost next = v@.subrange(from as int, i + 1);
        assert(next.drop_last() == pre);
        if !('0' <= c && c <= '9') {
            assert(!is_digit(v@.subrange(from as int, to as int)[i - from]));
            return None;
        }
        proof { lemma_digits_nonneg(pre); }
        let d = (c as u32 - '0' as u32) as u128;
        if acc > bound as u128 {
            assert(digits_value(next) == digits_value(pre) * 10 + d);
            assert(digits_value(next) > bound) by (nonlinear_arith)
                requires digits_value(next) == digits_value(pre) * 10 + d, digits_value(pre) > bound, d >= 0, bound >= 0;
        } else {
            let x = acc * 10 + d;
            acc = if x > bound as u128 { bound as u128 + 1 } else { x };
        }
        i = i + 1;
        assert(forall|j: int| 0 <= j < next.len() ==> next[j] == if j < pre.len() { pre[j] } else { c });
    }
    Some(acc)
}

/// `str::parse::<u32>` on `v[from..to]`.
pub fn parse_u32(v: &[char], from: usize, to: usize) -> (r: Option<u32>)
    requires
        from <= to <= v@.len(),
    ensures
        r == parse_u32_spec(v@.subrange(from as int, to as int)),
{
    let ghost s = v@.subrange(from as int, to as int);
    let start = if from < to && v[from] == '+' { from + 1 } else { from };
    assert(unsigned_body(s) == v@.subrange(start as int, to as int));
    if start >= to {
        return None;
    }
    match capped_digits(v, start, to, 0xFFFF_FFFF) {
        None => None,
        Some(x) => if x > 0xFFFF_FFFF { None } else { Some(x as u32) },
    }
}

/// What `str::parse::<usize>` gives: an optional `+` followed by at
/// least one decimal digit, whose value fits in a `usize`.
pub open spec fn parse_usize_spec(s: Seq<char>) -> Option<usize> {
    let body = unsigned_body(s);
    if body.len() > 0 && all_digits(body) && digits_value(body) <= usize::MAX {
        Some(digits_value(body) as usize)
    } else {
        None
    }
}

/// `str::parse::<usize>` on `v[from..to]`.
pub fn parse_usize(v: &[char], from: usize, to: usize) -> (r: Option<usize>)
    requires
        from <= to <= v@.len(),
    ensures
        r == parse_usize_spec(v@.subrange(from as int, to as int)),
{
    let ghost s = v@.subrange(from as int, to as int);
    let start = if from < to && v[from] == '+' { from + 1 } else { from };
    assert(unsigned_body(s) == v@.subrange(start as int, to as int));
    if start >= to {
        return None;
    }
    match capped_digits(v, start, to, usize::MAX as u64) {
        None => None,
        Some(x) => if x > usize::MAX as u128 { None } else { Some(x as usize) },
    }
}

/// `str::parse::<i32>` on `v[from..to]`.
pub fn parse_i32(v: &[char], from: usize, to: usize) -> (r: Option<i32>)
    requires
        from <= to <= v@.len(),
    ensures
        r == parse_i32_spec(v@.subrange(from as int, to as int)),
{
    let ghost s = v@.subrange(from as int, to as int);
    if from < to && v[from] == '-' {
        assert(s.drop_first() == v@.subrange(from + 1, to as int));
        if from + 1 >= to {
            return None;
        }
        match capped_digits(v, from + 1, to, 0x8000_0000) {
            None => None,
            Some(x) => if x > 0x8000_0000 { None } else {
                proof { lemma_digits_nonneg(s.drop_first()); }
                Some((0 - (x as i64)) as i32)
            },
        }
    } else {
        let start = if from < to && v[from] == '+' { from + 1 } else { from };
        assert(unsigned_body(s) == v@.subrange(start as int, to as int));
        if start >= to {
            return None;
        }
        match capped_digits(v, start, to, 0x7FFF_FFFF) {
            None => None,
            Some(x) => if x > 0x7FFF_FFFF { None } else { Some(x as i32) },
        }
    }
}

/// `prefix` followed by `v[from..to]`.
pub fn message_with(prefix: &str, v: &[char], from: usize, to: usize) -> (s: String)
    requires
        from <= to <= v@.len(),
    ensures
        s@ == prefix@ + v@.subrange(from as int, to as int),
{
    let part = sub_chars(v, from, to);
    let tail = string_of(part.as_slice());
    let mut s = String::from_str(prefix);
    s.append(tail.as_str());
    s
}

/// Whether two character sequences are equal.
pub fn same_chars(a: &[char], b: &[char]) -> (r: bool)
    ensures
        r == (a@ == b@),
{
    if a.len() != b.len() {
        return false;
    }
    let mut i: usize = 0;
    while i < a.len()
        invariant
            i <= a@.len() == b@.len(),
            forall|j: int| 0 <= j < i ==> a@[j] == b@[j],
        decreases a@.len() - i,
    {
        if a[i] != b[i] {
            return false;
        }
        i = i + 1;
    }
    assert(a@ == b@);
    true
}

/// Whether two strings are equal.
pub fn same_text(a: &str, b: &str) -> (r: bool)
    ensures
        r == (a@ == b@),
{
    let x = chars_of(a);
    let y = chars_of(b);
    same_chars(x.as_slice(), y.as_slice())
}

/// The character of a decimal digit.
pub open spec fn digit_char(d: int) -> char {
    if d == 0 { '0' } else if d == 1 { '1' } else if d == 2 { '2' } else if d == 3 { '3' }
    else if d == 4 { '4' } else if d == 5 { '5' } else if d == 6 { '6' } else if d == 7 { '7' }
    else if d == 8 { '8' } else { '9' }
}

/// The decimal digits of `n`, most significant first, without leading
/// zeros (`"0"` for zero): what `Display` writes for an unsigned integer.
pub open spec fn decimal(n: nat) -> Seq<char>
    decreases n,
{
    if n < 10 { seq![digit_char(n as int)] } else { decimal(n / 10).push(digit_char((n % 10) as int)) }
}

fn digit_of(d: u64) -> (c: char)
    requires
        d < 10,
    ensures
        c == digit_char(d as int),
{
    match d {
        0 => '0',
        1 => '1',
        2 => '2',
        3 => '3',
        4 => '4',
        5 => '5',
        6 => '6',
        7 => '7',
        8 => '8',
        _ => '9',
    }
}

/// The decimal digits of `n`.
pub fn decimal_chars(n: u64) -> (v: Vec<char>)
    ensures
        v@ == decimal(n as nat),
    decreases n,
{
    if n < 10 {
        let mut v: Vec<char> = Vec::new();
        v.push(digit_of(n));
        assert(v@ == seq![digit_char(n as int)]);
        v
    } else {
        let mut v = decimal_chars(n / 10);
        v.push(digit_of(n % 10));
        v
    }
}

/// `n.to_string()` for an unsigned integer.
pub fn u64_text(n: u64) -> (s: String)
    ensures
        s@ == decimal(n as nat),
{
    let v = decimal_chars(n);
    string_of(v.as_slice())
}

/// `a` followed by `b`.
pub fn concat_text(a: &str, b: &str) -> (s: String)
    ensures
        s@ == a@ + b@,
{
    let mut s = String::from_str(a);
    s.append(b);
    s
}

/// `n` occurs in `h` (`str::contains`; the empty text occurs everywhere).
pub open spec fn has_infix(h: Seq<char>, n: Seq<char>) -> bool {
    exists|i: int| 0 <= i && i + n.len() <= h.len() && #[trigger] h.subrange(i, i + n.len()) == n
}

/// Whether `n` occurs in `h` starting at position `i`.
fn occurs_at(h: &[char], n: &[char], i: usize) -> (r: bool)
    requires
        i + n@.len() <= h@.len(),
    ensures
        r == (h@.subrange(i as int, i + n@.len()) == n@),
{
    let hl = h.len();
    let mut k: usize = 0;
    while k < n.len()
        invariant
            hl == h@.len(),
            i + n@.len() <= h@.len(),
            k <= n@.len(),
            forall|j: int| 0 <= j < k ==> h@[i + j] == n@[j],
        decreases n@.len() - k,
    {
        if h[i + k] != n[k] {
            assert(h@.subrange(i as int, i + n@.len())[k as int] != n@[k as int]);
            return false;
        }
        k = k + 1;
    }
    assert(h@.subrange(i as int, i + n@.len()) =~= n@);
    true
}

/// Whether `n` occurs in `h`.
pub fn chars_contain(h: &[char], n: &[char]) -> (r: bool)
    ensures
        r == has_infix(h@, n@),
{
    if n.len() > h.len() {
        return false;
    }
    let last = h.len() - n.len();
    let mut i: usize = 0;
    while i <= last
        invariant
            last + n@.len() == h@.len(),
            i <= last + 1,
            forall|j: int| 0 <= j < i ==> #[trigger] h@.subrange(j, j + n@.len()) != n@,
        decreases last + 1 - i,
    {
        if occurs_at(h, n, i) {
            return true;
        }
        if i == last {
            return false;
        }
        i = i + 1;
    }
    false
}

/// Whether `n` occurs in `h` (`str::contains`).
pub fn text_contains(h: &str, n: &str) -> (r: bool)
    ensures
        r == has_infix(h@, n@),
{
    let hv = chars_of(h);
    let nv = chars_of(n);
    chars_contain(hv.as_slice(), nv.as_slice())
}

/// Where `n` first occurs in `h` at or after position `i`.
pub open spec fn infix_from(h: Seq<char>, n: Seq<char>, i: int) -> Option<int>
    decreases h.len() + 1 - i,
{
    if i < 0 || i + n.len() > h.len() {
        None
    } else if h.subrange(i, i + n.len()) == n {
        Some(i)
    } else {
        infix_from(h, n, i + 1)
    }
}

/// Where `n` first occurs in `h` (`str::find`).
pub open spec fn find_infix(h: Seq<char>, n: Seq<char>) -> Option<int> {
    infix_from(h, n, 0)
}

/// Where `n` last occurs in `h` starting at or before position `i`.
pub open spec fn infix_upto(h: Seq<char>, n: Seq<char>, i: int) -> Option<int>
    decreases i + 1,
{
    if i < 0 {
        None
    } else if i + n.len() <= h.len() && h.subrange(i, i + n.len()) == n {
        Some(i)
    } else {
        infix_upto(h, n, i - 1)
    }
}

/// Where `n` last occurs in `h` (`str::rfind`).
pub open spec fn rfind_infix(h: Seq<char>, n: Seq<char>) -> Option<int> {
    infix_upto(h, n, h.len() - n.len())
}

/// `s` begins with `p`.
pub open spec fn starts_with(s: Seq<char>, p: Seq<char>) -> bool {
    p.len() <= s.len() && s.take(p.len() as int) == p
}

/// Number of leading `c`.
pub open spec fn leading_run(s: Seq<char>, c: char) -> nat
    decreases s.len(),
{
    if s.len() > 0 && s[0] == c { 1 + leading_run(s.drop_first(), c) } else { 0 }
}

/// Number of trailing `c`.
pub open spec fn trailing_run(s: Seq<char>, c: char) -> nat
    decreases s.len(),
{
    if s.len() > 0 && s.last() == c { 1 + trailing_run(s.drop_last(), c) } else { 0 }
}

/// `s` without leading and trailing `c` (`str::trim_matches`).
pub open spec fn trim_char(s: Seq<char>, c: char) -> Seq<char> {
    let t = s.skip(leading_run(s, c) as int);
    t.take(t.len() - trailing_run(t, c))
}

/// The first position from `from` on where `n` occurs in `h`.
pub fn find_from(h: &[char], n: &[char], from: usize) -> (r: Option<usize>)
    requires
        from <= h@.len(),
    ensures
        r is None ==> infix_from(h@, n@, from as int) is None,
        r matches Some(i) ==> infix_from(h@, n@, from as int) == Some(i as int) && from <= i && i + n@.len() <= h@.len(),
{
    if n.len() > h.len() {
        return None;
    }
    let last = h.len() - n.len();
    let mut i: usize = from;
    while i <= last
        invariant
            last + n@.len() == h@.len(),
            from <= i,
            i <= h@.len(),
            infix_from(h@, n@, from as int) == infix_from(h@, n@, i as int),
        decreases last + 1 - i,
    {
        if occurs_at(h, n, i) {
            return Some(i);
        }
        if i == last {
            assert(infix_from(h@, n@, i + 1) is None);
            return None;
        }
        i = i + 1;
    }
    None
}

/// The last position where `n` occurs in `h`.
pub fn rfind_chars(h: &[char], n: &[char]) -> (r: Option<usize>)
    ensures
        r is None ==> rfind_infix(h@, n@) is None,
        r matches Some(i) ==> rfind_infix(h@, n@) == Some(i as int) && i + n@.len() <= h@.len(),
{
    if n.len() > h.len() {
        assert(rfind_infix(h@, n@) is None);
        return None;
    }
    let mut i: usize = h.len() - n.len();
    loop
        invariant
            i + n@.len() <= h@.len(),
            rfind_infix(h@, n@) == infix_upto(h@, n@, i as int),
        decreases i,
    {
        if occurs_at(h, n, i) {
            return Some(i);
        }
        if i == 0 {
            assert(infix_upto(h@, n@, -1) is None);
            return None;
        }
        i = i - 1;
    }
}

/// Whether `s` begins with `p`.
pub fn chars_start_with(s: &[char], p: &[char]) -> (r: bool)
    ensures
        r == starts_with(s@, p@),
{
    if p.len() > s.len() {
        return false;
    }
    let r = occurs_at(s, p, 0);
    assert(s@.subrange(0, p@.len() as int) == s@.take(p@.len() as int));
    r
}

proof fn lemma_leading_run(s: Seq<char>, c: char, k: int)
    requires
        0 <= k <= s.len(),
        forall|j: int| 0 <= j < k ==> #[trigger] s[j] == c,
        k < s.len() ==> s[k] != c,
    ensures
        leading_run(s, c) == k,
    decreases k,
{
    if k > 0 {
        assert forall|j: int| 0 <= j < k - 1 implies #[trigger] s.drop_first()[j] == c by {
            assert(s.drop_first()[j] == s[j + 1]);
        }
        lemma_leading_run(s.drop_first(), c, k - 1);
    }
}

proof fn lemma_trailing_run(s: Seq<char>, c: char, k: int)
    requires
        0 <= k <= s.len(),
        forall|j: int| s.len() - k <= j < s.len() ==> #[trigger] s[j] == c,
        k < s.len() ==> s[s.len() - 1 - k] != c,
    ensures
        trailing_run(s, c) == k,
    decreases k,
{
    if k > 0 {
        assert(s.last() == s[s.len() - 1]);
        assert forall|j: int| s.drop_last().len() - (k - 1) <= j < s.drop_last().len()
            implies #[trigger] s.drop_last()[j] == c by {
            assert(s.drop_last()[j] == s[j]);
        }
        lemma_trailing_run(s.drop_last(), c, k - 1);
    } else if k < s.len() {
        assert(s.last() == s[s.len() - 1]);
    }
}

/// The characters of `v` without leading and trailing `c`.
pub fn trim_char_chars(v: &[char], c: char) -> (r: Vec<char>)
    ensures
        r@ == trim_char(v@, c),
{
    let n = v.len();
    let mut a: usize = 0;
    while a < n && v[a] == c
        invariant
            a <= n == v@.len(),
            forall|j: int| 0 <= j < a ==> #[trigger] v@[j] == c,
        decreases n - a,
    {
        a = a + 1;
    }
    proof { lemma_leading_run(v@, c, a as int); }
    let ghost t = v@.skip(a as int);
    assert(t == v@.subrange(a as int, n as int));
    let mut b: usize = n;
    while b > a && v[b - 1] == c
        invariant
            a <= b <= n == v@.len(),
            t == v@.subrange(a as int, n as int),
            forall|j: int| b <= j < n ==> #[trigger] v@[j] == c,
        decreases b - a,
    {
        b = b - 1;
    }
    proof {
        assert forall|j: int| t.len() - (n - b) <= j < t.len() implies #[trigger] t[j] == c by {
            assert(t[j] == v@[j + a]);
        }
        if b > a {
            assert(t[t.len() - 1 - (n - b)] == v@[b - 1]);
        }
        lemma_trailing_run(t, c, (n - b) as int);
        assert(t.take(t.len() - (n - b)) == v@.subrange(a as int, b as int));
    }
    sub_chars(v, a, b)
}

/// The words of a text: the maximal runs of non-white-space characters
/// (`str::split_whitespace`).
pub open spec fn words_of(s: Seq<char>) -> Seq<Seq<char>>
    decreases s.len(),
{
    if s.len() == 0 {
        Seq::empty()
    } else {
        let w = words_of(s.drop_last());
        let c = s.last();
        if is_white_space(c) {
            w
        } else if s.len() >= 2 && !is_white_space(s[s.len() - 2]) {
            w.update(w.len() - 1, w.last().push(c))
        } else {
            w.push(seq![c])
        }
    }
}

pub proof fn lemma_words_step(s: Seq<char>)
    requires
        s.len() >= 1,
        !is_white_space(s.last()),
        s.len() >= 2 && !is_white_space(s[s.len() - 2]),
    ensures
        words_of(s.drop_last()).len() >= 1,
    decreases s.len(),
{
    let t = s.drop_last();
    if t.len() >= 2 && !is_white_space(t[t.len() - 2]) {
        assert(t.last() == s[s.len() - 2]);
        lemma_words_step(t);
    }
}

/// The words of the characters.
pub fn split_words(cs: &Vec<char>) -> (ws: Vec<Vec<char>>)
    ensures
        ws@.len() == words_of(cs@).len(),
        forall|i: int| 0 <= i < ws@.len() ==> (#[trigger] ws@[i])@ == words_of(cs@)[i],
{
    let mut ws: Vec<Vec<char>> = Vec::new();
    let mut i: usize = 0;
    while i < cs.len()
        invariant
            i <= cs@.len(),
            ws@.len() == words_of(cs@.take(i as int)).len(),
            forall|k: int| 0 <= k < ws@.len() ==> (#[trigger] ws@[k])@ == words_of(cs@.take(i as int))[k],
        decreases cs@.len() - i,
    {
        let ghost pre = cs@.take(i as int);
        let ghost next = cs@.take(i + 1);
        assert(next.drop_last() == pre);
        assert(next.last() == cs@[i as int]);
        let c = cs[i];
        if is_whitespace(c) {
        } else if i >= 1 && !is_whitespace(cs[i - 1]) {
            assert(next[next.len() - 2] == cs@[i - 1]);
            proof { lemma_words_step(next); }
            let last = ws.len() - 1;
            let mut w = ws.remove(last);
            w.push(c);
            ws.push(w);
            assert forall|k: int| 0 <= k < ws@.len() implies (#[trigger] ws@[k])@ == words_of(next)[k] by {
                if k < last {
                }
            }
        } else {
            if i >= 1 {
                assert(next[next.len() - 2] == cs@[i - 1]);
            }
            let mut w: Vec<char> = Vec::new();
            w.push(c);
            ws.push(w);
            assert(w@ == seq![c]);
        }
        i = i + 1;
    }
    assert(cs@.take(cs@.len() as int) == cs@);
    ws
}

} // verus!
