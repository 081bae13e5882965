//! Small text utilities over `Seq<char>`: decimal rendering and parsing of
//! unsigned integers, and substring search.
use vstd::prelude::*;

verus! {

/// The character of a decimal digit.
pub open spec fn digit_char(d: nat) -> char {
    (d + 48) as char
}

/// Whether `c` is one of `'0'..='9'`.
pub open spec fn is_digit(c: char) -> bool {
    '0' <= c && c <= '9'
}

/// The value of a decimal digit character.
pub open spec fn digit_value(c: char) -> nat {
    (c as int - 48) as nat
}

/// The shortest decimal rendering of `n` (no sign, no leading zeros).
pub open spec fn dec_digits(n: nat) -> Seq<char>
    decreases n,
{
    if n < 10 {
        seq![digit_char(n)]
    } else {
        dec_digits(n / 10).push(digit_char(n % 10))
    }
}

/// `s` with `'0'` characters in front until it is `width` long.
pub open spec fn zero_pad(s: Seq<char>, width: nat) -> Seq<char> {
    if s.len() >= width {
        s
    } else {
        Seq::new((width - s.len()) as nat, |i: int| '0') + s
    }
}

/// Every character of `s` is a decimal digit.
pub open spec fn all_digits(s: Seq<char>) -> bool {
    forall|i: int| 0 <= i < s.len() ==> is_digit(#[trigger] s[i])
}

/// The value of a string of decimal digits, read most significant first.
pub open spec fn digits_value(s: Seq<char>) -> nat
    decreases s.len(),
{
    if s.len() == 0 {
        0
    } else {
        digits_value(s.drop_last()) * 10 + digit_value(s.last())
    }
}

/// `s` without one leading `'+'`.
pub open spec fn unsigned_digits(s: Seq<char>) -> Seq<char> {
    if s.len() > 0 && s[0] == '+' {
        s.drop_first()
    } else {
        s
    }
}

/// What `u64::from_str` gives back: an optional `'+'`, then at least one
/// decimal digit, and a value that fits in 64 bits.
pub open spec fn parse_u64_spec(s: Seq<char>) -> Option<u64> {
    let d = unsigned_digits(s);
    if d.len() > 0 && all_digits(d) && digits_value(d) <= u64::MAX {
        Some(digits_value(d) as u64)
    } else {
        None
    }
}

/// `needle` occurs in `s` at position `i`.
pub open spec fn occurs_at(s: Seq<char>, needle: Seq<char>, i: int) -> bool {
    0 <= i && i + needle.len() <= s.len() && s.subrange(i, i + needle.len()) == needle
}

/// Appends one character to a `String` (`String::push`).
#[verifier::external_body]
pub(crate) fn push_char(s: &mut String, c: char)
    ensures
        final(s)@ == old(s)@.push(c),
{
    s.push(c)
}

fn digit_to_char(d: u64) -> (c: char)
    requires
        d < 10,
    ensures
        c == digit_char(d as nat),
{
    let b: u8 = 48u8 + (d as u8);
    b as char
}

fn append_decimal(n: u64, out: &mut String)
    ensures
        final(out)@ == old(out)@ + dec_digits(n as nat),
    decreases n,
{
    if n >= 10 {
        append_decimal(n / 10, out);
    }
    push_char(out, digit_to_char(n % 10));
    assert(final(out)@ =~= old(out)@ + dec_digits(n as nat));
}

/// The decimal rendering of `n`, as `n.to_string()` gives it.
pub fn decimal(n: u64) -> (s: String)
    ensures
        s@ == dec_digits(n as nat),
{
    let mut s = String::new();
    append_decimal(n, &mut s);
    assert(s@ =~= dec_digits(n as nat));
    s
}

/// The decimal rendering of `n`, padded with zeros to at least `width`
/// characters, as `format!("{:0width$}", n)` gives it.
pub fn decimal_zero_padded(n: u64, width: usize) -> (s: String)
    ensures
        s@ == zero_pad(dec_digits(n as nat), width as nat),
{
    let digits = decimal(n);
    let len = digits.as_str().unicode_len();
    let mut s = String::new();
    if len < width {
        let mut k: usize = 0;
        while k < width - len
            invariant
                k <= width - len,
                len < width,
                s@ == Seq::new(k as nat, |i: int| '0'),
            decreases width - len - k,
        {
            push_char(&mut s, '0');
            k = k + 1;
            assert(s@ =~= Seq::new(k as nat, |i: int| '0'));
        }
        s.append(digits.as_str());
        assert(s@ =~= zero_pad(dec_digits(n as nat), width as nat));
    } else {
        s.append(digits.as_str());
        assert(s@ =~= zero_pad(dec_digits(n as nat), width as nat));
    }
    s
}

proof fn lemma_digits_value_push(s: Seq<char>, c: char)
    ensures
        digits_value(s.push(c)) == digits_value(s) * 10 + digit_value(c),
{
    assert(s.push(c).drop_last() =~= s);
}

proof fn lemma_digits_value_monotone(s: Seq<char>, k: int)
    requires
        all_digits(s),
        0 <= k <= s.len(),
    ensures
        digits_value(s.subrange(0, k)) <= digits_value(s),
    decreases s.len() - k,
{
    if k < s.len() {
        lemma_digits_value_monotone(s, k + 1);
        assert(s.subrange(0, k + 1).drop_last() =~= s.subrange(0, k));
    } else {
        assert(s.subrange(0, k) =~= s);
    }
}

/// Reads a `u64` from `s` as `s.parse::<u64>()` does.
pub fn parse_u64(s: &str) -> (r: Option<u64>)
    ensures
        r == parse_u64_spec(s@),
{
    let n = s.unicode_len();
    if n == 0 {
        return None;
    }
    let start: usize = if s.get_char(0) == '+' { 1 } else { 0 };
    let ghost d = unsigned_digits(s@);
    assert(d =~= s@.subrange(start as int, n as int));
    if start == n {
        assert(d.len() == 0);
        return None;
    }
    let mut value: u64 = 0;
    let mut i: usize = start;
    while i < n
        invariant
            start <= i <= n,
            n == s@.len(),
            start < n,
            d == s@.subrange(start as int, n as int),
            d == unsigned_digits(s@),
            all_digits(s@.subrange(start as int, i as int)),
            value as nat == digits_value(s@.subrange(start as int, i as int)),
        decreases n - i,
    {
        let c = s.get_char(i);
        let ghost prefix = s@.subrange(start as int, i as int);
        assert(s@.subrange(start as int, i as int + 1) =~= prefix.push(c));
        proof {
            lemma_digits_value_push(prefix, c);
        }
        if c < '0' || c > '9' {
            assert(d[i - start] == c);
            assert(!all_digits(d));
            return None;
        }
        let dv: u64 = (c as u64) - 48;
        if value > (u64::MAX - dv) / 10 {
            proof {
                assert(value * 10 + dv > u64::MAX) by (nonlinear_arith)
                    requires
                        value > (u64::MAX - dv) / 10,
                        dv < 10,
                ;
                assert(digit_value(c) == dv);
                if all_digits(d) {
                    assert(s@.subrange(start as int, i as int + 1) =~= d.subrange(0, i - start + 1));
                    lemma_digits_value_monotone(d, i - start + 1);
                    assert(digits_value(d) > u64::MAX);
                }
            }
            return None;
        }
        assert(value * 10 + dv <= u64::MAX) by (nonlinear_arith)
            requires
                value <= (u64::MAX - dv) / 10,
                dv < 10,
        ;
        value = value * 10 + dv;
        i = i + 1;
    }
    assert(s@.subrange(start as int, n as int) =~= d);
    Some(value)
}

/// Whether `needle` occurs in `s` at character position `i`.
pub fn matches_at(s: &str, needle: &str, i: usize) -> (r: bool)
    requires
        i <= s@.len(),
    ensures
        r == occurs_at(s@, needle@, i as int),
{
    let n = s.unicode_len();
    let m = needle.unicode_len();
    if m > n - i {
        return false;
    }
    let mut k: usize = 0;
    while k < m
        invariant
            k <= m,
            m == needle@.len(),
            n == s@.len(),
            i + m <= n,
            forall|j: int| 0 <= j < k ==> s@[i + j] == needle@[j],
        decreases m - k,
    {
        if s.get_char(i + k) != needle.get_char(k) {
            assert(s@.subrange(i as int, i + m)[k as int] != needle@[k as int]);
            return false;
        }
        k = k + 1;
    }
    assert(s@.subrange(i as int, i + m) =~= needle@);
    true
}

/// The character position of the first occurrence of `needle` in `s`, as
/// `find` gives it (counted in characters rather than bytes).
pub fn find(s: &str, needle: &str) -> (r: Option<usize>)
    ensures
        r matches Some(i) ==> occurs_at(s@, needle@, i as int) && forall|j: int|
            0 <= j < i ==> !occurs_at(s@, needle@, j),
        r is None ==> forall|j: int| !occurs_at(s@, needle@, j),
{
    let n = s.unicode_len();
    let mut i: usize = 0;
    while i < n
        invariant
            i <= n,
            n == s@.len(),
            forall|j: int| 0 <= j < i ==> !occurs_at(s@, needle@, j),
        decreases n - i,
    {
        if matches_at(s, needle, i) {
            return Some(i);
        }
        i = i + 1;
    }
    if matches_at(s, needle, n) {
        return Some(n);
    }
    assert forall|j: int| !occurs_at(s@, needle@, j) by {
        if 0 <= j <= n {
        }
    };
    None
}

/// Whether `needle` occurs anywhere in `s`.
pub fn contains(s: &str, needle: &str) -> (r: bool)
    ensures
        r == (exists|i: int| occurs_at(s@, needle@, i)),
{
    match find(s, needle) {
        Some(i) => {
            assert(occurs_at(s@, needle@, i as int));
            true
        },
        None => false,
    }
}

} // verus!

verus! {

/// What `str::to_lowercase` gives back for `s`: Unicode lower-case mapping,
/// which can change the length of the text.
pub uninterp spec fn lowercase_spec(s: Seq<char>) -> Seq<char>;

/// The lower-case form of `s` (`str::to_lowercase`).
#[verifier::external_body]
pub(crate) fn lowercase(s: &str) -> (r: String)
    ensures
        r@ == lowercase_spec(s@),
{
    s.to_lowercase()
}

} // verus!

verus! {

/// Whether two strings are equal.
pub fn str_eq(a: &str, b: &str) -> (r: bool)
    ensures
        r == (a@ == b@),
{
    if a.unicode_len() != b.unicode_len() {
        return false;
    }
    let r = matches_at(a, b, 0);
    proof {
        if r {
            assert(a@ =~= a@.subrange(0, b@.len() as int));
        } else {
            assert(a@.subrange(0, b@.len() as int) =~= a@);
        }
    }
    r
}

} // verus!

verus! {

/// Whether `c` has the Unicode `White_Space` property, which
/// `char::is_whitespace` tests: tab, line feed, vertical tab, form feed,
/// carriage return, space, next line, no-break space, ogham space mark, the
/// spaces from en quad to hair space, line and paragraph separators, narrow
/// no-break space, medium mathematical space and ideographic space.
pub open spec fn is_ws(c: char) -> bool {
    let n = c as u32;
    ||| 0x09 <= n <= 0x0D
    ||| n == 0x20
    ||| n == 0x85
    ||| n == 0xA0
    ||| n == 0x1680
    ||| 0x2000 <= n <= 0x200A
    ||| n == 0x2028
    ||| n == 0x2029
    ||| n == 0x202F
    ||| n == 0x205F
    ||| n == 0x3000
}

/// Whether a character is white space, as `char::is_whitespace` tells.
pub fn char_is_whitespace(c: char) -> (r: bool)
    ensures
        r == is_ws(c),
{
    let n = c as u32;
    (0x09 <= n && n <= 0x0D) || n == 0x20 || n == 0x85 || n == 0xA0 || n == 0x1680 || (0x2000 <= n && n <= 0x200A)
        || n == 0x2028 || n == 0x2029 || n == 0x202F || n == 0x205F || n == 0x3000
}

/// `a..b` is what remains of `s` once white space is cut from both ends.
pub open spec fn trim_bounds(s: Seq<char>, a: int, b: int) -> bool {
    &&& 0 <= a <= b <= s.len()
    &&& forall|i: int| 0 <= i < a ==> is_ws(#[trigger] s[i])
    &&& forall|i: int| b <= i < s.len() ==> is_ws(#[trigger] s[i])
    &&& a < b ==> !is_ws(s[a]) && !is_ws(s[b - 1])
}

/// `s` without white space at either end (`str::trim`).
pub open spec fn trim_spec(s: Seq<char>) -> Seq<char> {
    let (a, b) = choose|a: int, b: int| trim_bounds(s, a, b);
    s.subrange(a, b)
}

proof fn lemma_trim_bounds_unique(s: Seq<char>, a: int, b: int, c: int, d: int)
    requires
        trim_bounds(s, a, b),
        trim_bounds(s, c, d),
    ensures
        s.subrange(a, b) == s.subrange(c, d),
{
    if a < b && c < d {
        if a < c {
            assert(is_ws(s[a]));
        }
        if c < a {
            assert(is_ws(s[c]));
        }
        if b < d {
            assert(is_ws(s[d - 1]));
        }
        if d < b {
            assert(is_ws(s[b - 1]));
        }
    } else if a < b {
        assert(is_ws(s[a]));
    } else if c < d {
        assert(is_ws(s[c]));
    }
    assert(s.subrange(a, b) =~= s.subrange(c, d));
}

/// `s` without white space at either end, as `str::trim` gives it.
pub fn trim(s: &str) -> (r: String)
    ensures
        r@ == trim_spec(s@),
{
    let n = s.unicode_len();
    let mut a: usize = 0;
    while a < n && char_is_whitespace(s.get_char(a))
        invariant
            a <= n,
            n == s@.len(),
            forall|i: int| 0 <= i < a ==> is_ws(#[trigger] s@[i]),
        decreases n - a,
    {
        a = a + 1;
    }
    let mut b: usize = n;
    while b > a && char_is_whitespace(s.get_char(b - 1))
        invariant
            a <= b <= n,
            n == s@.len(),
            forall|i: int| b <= i < n ==> is_ws(#[trigger] s@[i]),
            a < n ==> !is_ws(s@[a as int]),
        decreases b - a,
    {
        b = b - 1;
    }
    proof {
        assert(trim_bounds(s@, a as int, b as int));
        let (c, d) = choose|c: int, d: int| trim_bounds(s@, c, d);
        lemma_trim_bounds_unique(s@, a as int, b as int, c, d);
    }
    String::from_str(s.substring_char(a, b))
}

/// The state after scanning `s` when splitting at white space: the words
/// completed so far and the word being read.
pub open spec fn words_scan(s: Seq<char>) -> (Seq<Seq<char>>, Seq<char>)
    decreases s.len(),
{
    if s.len() == 0 {
        (Seq::empty(), Seq::empty())
    } else {
        let (done, cur) = words_scan(s.drop_last());
        let c = s.last();
        if is_ws(c) {
            if cur.len() > 0 {
                (done.push(cur), Seq::empty())
            } else {
                (done, Seq::empty())
            }
        } else {
            (done, cur.push(c))
        }
    }
}

/// The maximal runs of non-white-space characters of `s`, in order
/// (`str::split_whitespace`).
pub open spec fn words_spec(s: Seq<char>) -> Seq<Seq<char>> {
    let (done, cur) = words_scan(s);
    if cur.len() > 0 {
        done.push(cur)
    } else {
        done
    }
}

/// The words of `s`: its maximal runs of non-white-space characters, as
/// `str::split_whitespace` gives them.
pub fn split_whitespace(s: &str) -> (r: Vec<String>)
    ensures
        r@.map_values(|w: String| w@) == words_spec(s@),
{
    let n = s.unicode_len();
    let mut done: Vec<String> = Vec::new();
    let mut cur = String::new();
    let mut i: usize = 0;
    while i < n
        invariant
            i <= n,
            n == s@.len(),
            (done@.map_values(|w: String| w@), cur@) == words_scan(s@.subrange(0, i as int)),
        decreases n - i,
    {
        let c = s.get_char(i);
        assert(s@.subrange(0, i + 1).drop_last() =~= s@.subrange(0, i as int));
        assert(s@.subrange(0, i + 1).last() == c);
        if char_is_whitespace(c) {
            if cur.unicode_len() > 0 {
                let ghost prev = done@;
                let w = cur;
                done.push(w);
                cur = String::new();
                assert(done@.map_values(|w: String| w@) =~= prev.map_values(|w: String| w@).push(w@));
            } else {
                cur = String::new();
                assert(cur@ =~= Seq::<char>::empty());
            }
        } else {
            push_char(&mut cur, c);
        }
        i = i + 1;
    }
    assert(s@.subrange(0, n as int) =~= s@);
    if cur.unicode_len() > 0 {
        let ghost prev = done@;
        let w = cur;
        done.push(w);
        assert(done@.map_values(|w: String| w@) =~= prev.map_values(|w: String| w@).push(w@));
    }
    done
}

} // verus!
