//! Small string operations with exact contracts over the character
//! sequences of their arguments.

use vstd::prelude::*;
use vstd::string::*;

verus! {

/// `c` occurs in `s` at no position at or after `from`.
pub open spec fn char_absent_from(s: Seq<char>, c: char, from: int) -> bool {
    forall|j: int| from <= j < s.len() ==> s[j] != c
}

/// `c` occurs in `s` at no position before `to`.
pub open spec fn char_absent_until(s: Seq<char>, c: char, to: int) -> bool {
    forall|j: int| 0 <= j < to ==> s[j] != c
}

/// Position of the first `c` in `s`, if any.
pub open spec fn first_index_of(s: Seq<char>, c: char) -> Option<int> {
    if exists|i: int| 0 <= i < s.len() && s[i] == c {
        Some(choose|i: int| 0 <= i < s.len() && s[i] == c && char_absent_until(s, c, i))
    } else {
        None
    }
}

/// Position of the last `c` in `s`, if any.
pub open spec fn last_index_of(s: Seq<char>, c: char) -> Option<int> {
    if exists|i: int| 0 <= i < s.len() && s[i] == c {
        Some(choose|i: int| 0 <= i < s.len() && s[i] == c && char_absent_from(s, c, i + 1))
    } else {
        None
    }
}

/// The two halves of `s` around its last `c`, as `str::rsplit_once` returns them.
pub open spec fn rsplit_once_spec(s: Seq<char>, c: char) -> Option<(Seq<char>, Seq<char>)> {
    match last_index_of(s, c) {
        Some(i) => Some((s.subrange(0, i), s.subrange(i + 1, s.len() as int))),
        None => None,
    }
}

/// The two halves of `s` around its first `c`, as `str::split_once` returns them.
pub open spec fn split_once_spec(s: Seq<char>, c: char) -> Option<(Seq<char>, Seq<char>)> {
    match first_index_of(s, c) {
        Some(i) => Some((s.subrange(0, i), s.subrange(i + 1, s.len() as int))),
        None => None,
    }
}

/// `s` with `prefix` removed from its front, when `s` starts with it.
pub open spec fn strip_prefix_spec(s: Seq<char>, prefix: Seq<char>) -> Option<Seq<char>> {
    if prefix.is_prefix_of(s) {
        Some(s.subrange(prefix.len() as int, s.len() as int))
    } else {
        None
    }
}

/// `s` with every trailing `c` removed, as `str::trim_end_matches(c)` does.
pub open spec fn trim_end_char_spec(s: Seq<char>, c: char) -> Seq<char>
    decreases s.len(),
{
    if s.len() > 0 && s.last() == c {
        trim_end_char_spec(s.drop_last(), c)
    } else {
        s
    }
}

/// Two consecutive `c` occur somewhere in `s`.
pub open spec fn has_double_char(s: Seq<char>, c: char) -> bool {
    exists|i: int| 0 <= i && i + 1 < s.len() && #[trigger] s[i] == c && s[i + 1] == c
}

pub proof fn lemma_first_index_of(s: Seq<char>, c: char, i: int)
    requires
        0 <= i < s.len(),
        s[i] == c,
        char_absent_until(s, c, i),
    ensures
        first_index_of(s, c) == Some(i),
{
    let k = choose|k: int| 0 <= k < s.len() && s[k] == c && char_absent_until(s, c, k);
    assert(0 <= k < s.len() && s[k] == c && char_absent_until(s, c, k));
    if k < i {
        assert(s[k] != c);
    }
    if i < k {
        assert(s[i] != c);
    }
}

pub proof fn lemma_last_index_of(s: Seq<char>, c: char, i: int)
    requires
        0 <= i < s.len(),
        s[i] == c,
        char_absent_from(s, c, i + 1),
    ensures
        last_index_of(s, c) == Some(i),
{
    let k = choose|k: int| 0 <= k < s.len() && s[k] == c && char_absent_from(s, c, k + 1);
    assert(0 <= k < s.len() && s[k] == c && char_absent_from(s, c, k + 1));
    if k < i {
        assert(s[i] != c);
    }
    if i < k {
        assert(s[k] != c);
    }
}

proof fn lemma_last_occurrence_exists(s: Seq<char>, c: char, k: int)
    requires
        0 <= k < s.len(),
        s[k] == c,
    ensures
        exists|i: int| 0 <= i < s.len() && s[i] == c && char_absent_from(s, c, i + 1),
    decreases s.len() - k,
{
    if !char_absent_from(s, c, k + 1) {
        let j = choose|j: int| k + 1 <= j < s.len() && s[j] == c;
        lemma_last_occurrence_exists(s, c, j);
    }
}

proof fn lemma_first_occurrence_exists(s: Seq<char>, c: char, k: int)
    requires
        0 <= k < s.len(),
        s[k] == c,
    ensures
        exists|i: int| 0 <= i < s.len() && s[i] == c && char_absent_until(s, c, i),
    decreases k,
{
    if !char_absent_until(s, c, k) {
        let j = choose|j: int| 0 <= j < k && s[j] == c;
        lemma_first_occurrence_exists(s, c, j);
    }
}

/// What `last_index_of` gives: the position of the last `c`, or `None`
/// when `c` does not occur.
pub proof fn lemma_last_index_of_spec(s: Seq<char>, c: char)
    ensures
        match last_index_of(s, c) {
            Some(i) => 0 <= i < s.len() && s[i] == c && char_absent_from(s, c, i + 1),
            None => char_absent_from(s, c, 0),
        },
{
    if exists|i: int| 0 <= i < s.len() && s[i] == c {
        let k = choose|i: int| 0 <= i < s.len() && s[i] == c;
        lemma_last_occurrence_exists(s, c, k);
    }
}

/// What `first_index_of` gives: the position of the first `c`, or `None`
/// when `c` does not occur.
pub proof fn lemma_first_index_of_spec(s: Seq<char>, c: char)
    ensures
        match first_index_of(s, c) {
            Some(i) => 0 <= i < s.len() && s[i] == c && char_absent_until(s, c, i),
            None => char_absent_until(s, c, s.len() as int),
        },
{
    if exists|i: int| 0 <= i < s.len() && s[i] == c {
        let k = choose|i: int| 0 <= i < s.len() && s[i] == c;
        lemma_first_occurrence_exists(s, c, k);
    }
}

/// Character-wise equality of two strings.
pub fn str_eq(a: &str, b: &str) -> (r: bool)
    ensures
        r == (a@ == b@),
{
    let n = a.unicode_len();
    let m = b.unicode_len();
    if n != m {
        return false;
    }
    let mut i: usize = 0;
    while i < n
        invariant
            n == a@.len(),
            m == b@.len(),
            n == m,
            i <= n,
            forall|j: int| 0 <= j < i ==> a@[j] == b@[j],
        decreases n - i,
    {
        if a.get_char(i) != b.get_char(i) {
            return false;
        }
        i = i + 1;
    }
    assert(a@ =~= b@);
    true
}

/// `s` starts with `prefix`.
pub fn str_starts_with(s: &str, prefix: &str) -> (r: bool)
    ensures
        r == prefix@.is_prefix_of(s@),
{
    let n = s.unicode_len();
    let m = prefix.unicode_len();
    if m > n {
        return false;
    }
    let mut i: usize = 0;
    while i < m
        invariant
            n == s@.len(),
            m == prefix@.len(),
            m <= n,
            i <= m,
            forall|j: int| 0 <= j < i ==> prefix@[j] == s@[j],
        decreases m - i,
    {
        if s.get_char(i) != prefix.get_char(i) {
            assert(prefix@[i as int] != s@.subrange(0, m as int)[i as int]);
            return false;
        }
        i = i + 1;
    }
    assert(prefix@ =~= s@.subrange(0, m as int));
    true
}

/// `s` ends with `suffix`.
pub fn str_ends_with(s: &str, suffix: &str) -> (r: bool)
    ensures
        r == suffix@.is_suffix_of(s@),
{
    let n = s.unicode_len();
    let m = suffix.unicode_len();
    if m > n {
        return false;
    }
    let off = n - m;
    let mut i: usize = 0;
    while i < m
        invariant
            n == s@.len(),
            m == suffix@.len(),
            m <= n,
            off == n - m,
            i <= m,
            forall|j: int| 0 <= j < i ==> suffix@[j] == s@[off + j],
        decreases m - i,
    {
        if s.get_char(off + i) != suffix.get_char(i) {
            assert(suffix@[i as int] != s@.subrange(off as int, n as int)[i as int]);
            return false;
        }
        i = i + 1;
    }
    assert(suffix@ =~= s@.subrange(off as int, n as int));
    true
}

/// Position of the first `c` in `s`.
pub fn find_first_char(s: &str, c: char) -> (r: Option<usize>)
    ensures
        match r {
            Some(i) => first_index_of(s@, c) == Some(i as int) && i < s@.len() && s@[i as int] == c
                && char_absent_until(s@, c, i as int),
            None => first_index_of(s@, c) is None && char_absent_until(s@, c, s@.len() as int),
        },
{
    let n = s.unicode_len();
    let mut i: usize = 0;
    while i < n
        invariant
            n == s@.len(),
            i <= n,
            char_absent_until(s@, c, i as int),
        decreases n - i,
    {
        if s.get_char(i) == c {
            proof {
                lemma_first_index_of(s@, c, i as int);
            }
            return Some(i);
        }
        i = i + 1;
    }
    None
}

/// Position of the last `c` in `s`.
pub fn find_last_char(s: &str, c: char) -> (r: Option<usize>)
    ensures
        match r {
            Some(i) => last_index_of(s@, c) == Some(i as int) && i < s@.len() && s@[i as int] == c
                && char_absent_from(s@, c, i + 1),
            None => last_index_of(s@, c) is None && char_absent_from(s@, c, 0),
        },
{
    let n = s.unicode_len();
    let mut i: usize = n;
    while i > 0
        invariant
            n == s@.len(),
            i <= n,
            char_absent_from(s@, c, i as int),
        decreases i,
    {
        if s.get_char(i - 1) == c {
            proof {
                lemma_last_index_of(s@, c, i - 1);
            }
            return Some(i - 1);
        }
        i = i - 1;
    }
    None
}

/// `c` occurs in `s`.
pub fn str_contains_char(s: &str, c: char) -> (r: bool)
    ensures
        r == s@.contains(c),
{
    match find_first_char(s, c) {
        Some(i) => {
            assert(s@[i as int] == c);
            true
        },
        None => false,
    }
}

/// The characters of `s` from position `from` up to `to`, as a new string.
pub fn substring(s: &str, from: usize, to: usize) -> (r: String)
    requires
        from <= to <= s@.len(),
    ensures
        r@ == s@.subrange(from as int, to as int),
{
    s.substring_char(from, to).to_owned()
}

/// `a` followed by `b`.
pub fn str_concat(a: &str, b: &str) -> (r: String)
    ensures
        r@ == a@ + b@,
{
    let mut r = a.to_owned();
    r.append(b);
    r
}

/// `a`, `b` and `c`, one after the other.
pub fn str_concat3(a: &str, b: &str, c: &str) -> (r: String)
    ensures
        r@ == a@ + b@ + c@,
{
    let mut r = a.to_owned();
    r.append(b);
    r.append(c);
    r
}

/// The halves of `s` around its last `c`.
pub fn rsplit_once(s: &str, c: char) -> (r: Option<(String, String)>)
    ensures
        match (r, rsplit_once_spec(s@, c)) {
            (Some((a, b)), Some((x, y))) => a@ == x && b@ == y,
            (None, None) => true,
            _ => false,
        },
{
    match find_last_char(s, c) {
        Some(i) => {
            let n = s.unicode_len();
            Some((substring(s, 0, i), substring(s, i + 1, n)))
        },
        None => None,
    }
}

/// The halves of `s` around its first `c`.
pub fn split_once(s: &str, c: char) -> (r: Option<(String, String)>)
    ensures
        match (r, split_once_spec(s@, c)) {
            (Some((a, b)), Some((x, y))) => a@ == x && b@ == y,
            (None, None) => true,
            _ => false,
        },
{
    match find_first_char(s, c) {
        Some(i) => {
            let n = s.unicode_len();
            Some((substring(s, 0, i), substring(s, i + 1, n)))
        },
        None => None,
    }
}

/// `s` without `prefix`, when `s` starts with it.
pub fn strip_prefix(s: &str, prefix: &str) -> (r: Option<String>)
    ensures
        match (r, strip_prefix_spec(s@, prefix@)) {
            (Some(a), Some(x)) => a@ == x,
            (None, None) => true,
            _ => false,
        },
{
    if str_starts_with(s, prefix) {
        let n = s.unicode_len();
        let m = prefix.unicode_len();
        Some(substring(s, m, n))
    } else {
        None
    }
}

/// `s` without its trailing `c` characters.
pub fn trim_end_char(s: &str, c: char) -> (r: String)
    ensures
        r@ == trim_end_char_spec(s@, c),
{
    let n = s.unicode_len();
    let mut i: usize = n;
    assert(s@.subrange(0, n as int) =~= s@);
    while i > 0 && s.get_char(i - 1) == c
        invariant
            n == s@.len(),
            i <= n,
            trim_end_char_spec(s@.subrange(0, i as int), c) == trim_end_char_spec(s@, c),
        decreases i,
    {
        assert(s@.subrange(0, i as int).drop_last() =~= s@.subrange(0, i - 1));
        i = i - 1;
    }
    assert(trim_end_char_spec(s@.subrange(0, i as int), c) == s@.subrange(0, i as int));
    substring(s, 0, i)
}

/// Two consecutive `c` occur in `s`.
pub fn contains_double_char(s: &str, c: char) -> (r: bool)
    ensures
        r == has_double_char(s@, c),
{
    let n = s.unicode_len();
    if n < 2 {
        return false;
    }
    let mut i: usize = 0;
    while i < n - 1
        invariant
            n == s@.len(),
            n >= 2,
            i <= n,
            forall|j: int| 0 <= j < i && j + 1 < n ==> !(#[trigger] s@[j] == c && s@[j + 1] == c),
        decreases n - i,
    {
        if s.get_char(i) == c && s.get_char(i + 1) == c {
            return true;
        }
        i = i + 1;
    }
    false
}

} // verus!

verus! {

/// The result of building `pattern` with `regex::Regex::new` and matching it
/// against `text`: `Ok` with whether it matches, or `Err` with the text of the
/// build error.
pub uninterp spec fn spec_regex_is_match(pattern: Seq<char>, text: Seq<char>) -> Result<bool, Seq<char>>;

/// `regex::Regex::new(pattern)` followed by `is_match(text)`. The contract
/// names the result.
#[verifier::external_body]
pub(crate) fn regex_is_match(pattern: &str, text: &str) -> (r: Result<bool, String>)
    ensures
        match r {
            Ok(b) => spec_regex_is_match(pattern@, text@) == Ok::<bool, Seq<char>>(b),
            Err(e) => spec_regex_is_match(pattern@, text@) == Err::<bool, Seq<char>>(e@),
        },
{
    match regex::Regex::new(pattern) {
        Ok(re) => Ok(re.is_match(text)),
        Err(e) => Err(e.to_string()),
    }
}

/// The decimal digits of `n`.
pub open spec fn decimal(n: nat) -> Seq<char>
    decreases n,
{
    if n < 10 {
        seq![digit_char(n)]
    } else {
        decimal(n / 10) + seq![digit_char(n % 10)]
    }
}

/// The digit character of `d`, for `d` below ten.
pub open spec fn digit_char(d: nat) -> char {
    if d == 0 { '0' }
    else if d == 1 { '1' }
    else if d == 2 { '2' }
    else if d == 3 { '3' }
    else if d == 4 { '4' }
    else if d == 5 { '5' }
    else if d == 6 { '6' }
    else if d == 7 { '7' }
    else if d == 8 { '8' }
    else { '9' }
}

/// `c` is a decimal digit.
pub open spec fn is_digit_char(c: char) -> bool {
    c == '0' || c == '1' || c == '2' || c == '3' || c == '4' || c == '5' || c == '6' || c == '7'
        || c == '8' || c == '9'
}

/// The value of a digit character.
pub open spec fn digit_value(c: char) -> nat {
    if c == '1' { 1 }
    else if c == '2' { 2 }
    else if c == '3' { 3 }
    else if c == '4' { 4 }
    else if c == '5' { 5 }
    else if c == '6' { 6 }
    else if c == '7' { 7 }
    else if c == '8' { 8 }
    else if c == '9' { 9 }
    else { 0 }
}

/// The number that a string of decimal digits writes.
pub open spec fn decimal_value(s: Seq<char>) -> nat
    decreases s.len(),
{
    if s.len() == 0 {
        0
    } else {
        decimal_value(s.drop_last()) * 10 + digit_value(s.last())
    }
}

/// The digit of `d` has the value `d`.
proof fn lemma_digit_value(d: nat)
    requires
        d < 10,
    ensures
        digit_value(digit_char(d)) == d,
        is_digit_char(digit_char(d)),
{
}

/// The decimal digits of `n` are digits, at least one, and write `n`: so
/// distinct numbers have distinct digits.
pub proof fn lemma_decimal_digits(n: nat)
    ensures
        decimal(n).len() > 0,
        forall|i: int| 0 <= i < decimal(n).len() ==> is_digit_char(#[trigger] decimal(n)[i]),
        decimal_value(decimal(n)) == n,
    decreases n,
{
    if n < 10 {
        lemma_digit_value(n);
        assert(decimal(n).drop_last() =~= Seq::<char>::empty());
        assert(decimal_value(decimal(n)) == decimal_value(decimal(n).drop_last()) * 10 + digit_value(decimal(n).last()));
    } else {
        lemma_digit_value(n % 10);
        lemma_decimal_digits(n / 10);
        let d = decimal(n);
        assert(d.drop_last() =~= decimal(n / 10));
        assert(d.last() == digit_char(n % 10));
        assert forall|i: int| 0 <= i < d.len() implies is_digit_char(#[trigger] d[i]) by {
            if i < decimal(n / 10).len() {
                assert(d[i] == decimal(n / 10)[i]);
            }
        }
        assert(decimal_value(d) == decimal_value(d.drop_last()) * 10 + digit_value(d.last()));
        assert(n == (n / 10) * 10 + n % 10);
    }
}

/// Two numbers with the same decimal digits are equal.
pub proof fn lemma_decimal_injective(a: nat, b: nat)
    ensures
        decimal(a) == decimal(b) ==> a == b,
{
    lemma_decimal_digits(a);
    lemma_decimal_digits(b);
}

fn digit_str(d: usize) -> (r: &'static str)
    requires
        d < 10,
    ensures
        r@ == seq![digit_char(d as nat)],
{
    proof {
        reveal_strlit("0");
        reveal_strlit("1");
        reveal_strlit("2");
        reveal_strlit("3");
        reveal_strlit("4");
        reveal_strlit("5");
        reveal_strlit("6");
        reveal_strlit("7");
        reveal_strlit("8");
        reveal_strlit("9");
    }
    if d == 0 {
        "0"
    } else if d == 1 {
        "1"
    } else if d == 2 {
        "2"
    } else if d == 3 {
        "3"
    } else if d == 4 {
        "4"
    } else if d == 5 {
        "5"
    } else if d == 6 {
        "6"
    } else if d == 7 {
        "7"
    } else if d == 8 {
        "8"
    } else {
        "9"
    }
}

/// `n` written in decimal, as `format!("{}", n)` writes it.
pub fn decimal_string(n: usize) -> (r: String)
    ensures
        r@ == decimal(n as nat),
    decreases n,
{
    if n < 10 {
        digit_str(n).to_owned()
    } else {
        let mut r = decimal_string(n / 10);
        r.append(digit_str(n % 10));
        r
    }
}

} // verus!
