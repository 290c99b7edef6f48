//! Verified text helpers: decimal rendering, path joining, separator
//! normalisation and the substring predicates the locator needs.

use vstd::prelude::*;

verus! {

/// Relies on `core::iter::Iterator::collect` for `String`: collecting
/// characters yields the string of exactly those characters in order.
#[verifier::external_body]
pub fn chars_to_string(v: &Vec<char>) -> (r: String)
    ensures
        r@ == v@,
{
    v.iter().collect()
}

pub open spec fn spec_digit_char(d: nat) -> char {
    if d == 0 {
        '0'
    } else if d == 1 {
        '1'
    } else if d == 2 {
        '2'
    } else if d == 3 {
        '3'
    } else if d == 4 {
        '4'
    } else if d == 5 {
        '5'
    } else if d == 6 {
        '6'
    } else if d == 7 {
        '7'
    } else if d == 8 {
        '8'
    } else {
        '9'
    }
}

/// The decimal rendering of `n`, without sign or leading zeros.
pub open spec fn spec_dec(n: nat) -> Seq<char>
    decreases n,
{
    if n < 10 {
        seq![spec_digit_char(n)]
    } else {
        spec_dec(n / 10) + seq![spec_digit_char(n % 10)]
    }
}

fn digit_string(d: u64) -> (r: String)
    requires
        d < 10,
    ensures
        r@ == seq![spec_digit_char(d as nat)],
{
    let r = match d {
        0 => String::from_str("0"),
        1 => String::from_str("1"),
        2 => String::from_str("2"),
        3 => String::from_str("3"),
        4 => String::from_str("4"),
        5 => String::from_str("5"),
        6 => String::from_str("6"),
        7 => String::from_str("7"),
        8 => String::from_str("8"),
        _ => String::from_str("9"),
    };
    proof {
        reveal_strlit("0");
        reveal_strlit("1");
        reveal_strlit("2");
        reveal_strlit("3");
        reveal_strlit("4");
        reveal_strlit("5");
        reveal_strlit("6");
        reveal_strlit("7");
        reveal_strlit("8");
        reveal_strlit("9");
        assert(r@ =~= seq![spec_digit_char(d as nat)]);
    }
    r
}

/// Renders `n` in decimal.
pub fn u64_dec(n: u64) -> (r: String)
    ensures
        r@ == spec_dec(n as nat),
    decreases n,
{
    if n < 10 {
        digit_string(n)
    } else {
        let mut s = u64_dec(n / 10);
        let d = digit_string(n % 10);
        s.append(d.as_str());
        s
    }
}

/// `a` and `b` joined with a single separator, as the locator and the launch
/// plans spell paths on every platform.
pub open spec fn spec_join(a: Seq<char>, b: Seq<char>) -> Seq<char> {
    a + "/"@ + b
}

pub fn path_join(a: &str, b: &str) -> (r: String)
    ensures
        r@ == spec_join(a@, b@),
{
    let mut s = String::from_str(a);
    s.append("/");
    s.append(b);
    s
}

/// A copy of the optional text, equal view for view.
pub fn clone_opt_string(o: &Option<String>) -> (r: Option<String>)
    ensures
        match (r, *o) {
            (Some(a), Some(b)) => a@ == b@,
            (None, None) => true,
            _ => false,
        },
{
    match o {
        Some(s) => Some(s.clone()),
        None => None,
    }
}

pub fn concat2(a: &str, b: &str) -> (r: String)
    ensures
        r@ == a@ + b@,
{
    let mut s = String::from_str(a);
    s.append(b);
    s
}

pub fn concat3(a: &str, b: &str, c: &str) -> (r: String)
    ensures
        r@ == a@ + b@ + c@,
{
    let mut s = String::from_str(a);
    s.append(b);
    s.append(c);
    s
}

/// Every backslash replaced by a forward slash.
pub open spec fn spec_slash(s: Seq<char>) -> Seq<char> {
    s.map_values(
        (|c: char|
            if c == '\\' {
                '/'
            } else {
                c
            }),
    )
}

pub fn slashify(s: &str) -> (r: String)
    ensures
        r@ == spec_slash(s@),
{
    let n = s.unicode_len();
    let mut v: Vec<char> = Vec::new();
    let mut i: usize = 0;
    while i < n
        invariant
            i <= n,
            n == s@.len(),
            v@ == spec_slash(s@.subrange(0, i as int)),
        decreases n - i,
    {
        let c = s.get_char(i);
        if c == '\\' {
            v.push('/');
        } else {
            v.push(c);
        }
        i += 1;
        proof {
            assert(v@ =~= spec_slash(s@.subrange(0, i as int)));
        }
    }
    proof {
        assert(s@.subrange(0, n as int) =~= s@);
    }
    chars_to_string(&v)
}

pub fn str_eq(a: &str, b: &str) -> (r: bool)
    ensures
        r == (a@ == b@),
{
    let n = a.unicode_len();
    let m = b.unicode_len();
    if n != m {
        return false;
    }
    let mut j: usize = 0;
    while j < n
        invariant
            j <= n,
            n == a@.len(),
            n == b@.len(),
            forall|k: int| 0 <= k < j ==> a@[k] == b@[k],
        decreases n - j,
    {
        if a.get_char(j) != b.get_char(j) {
            return false;
        }
        j += 1;
    }
    proof {
        assert(a@ =~= b@);
    }
    true
}

pub open spec fn spec_ends_with(s: Seq<char>, suffix: Seq<char>) -> bool {
    s.len() >= suffix.len() && s.subrange(s.len() - suffix.len(), s.len() as int) == suffix
}

pub fn str_ends_with(s: &str, suffix: &str) -> (r: bool)
    ensures
        r == spec_ends_with(s@, suffix@),
{
    let n = s.unicode_len();
    let m = suffix.unicode_len();
    if m > n {
        return false;
    }
    let mut j: usize = 0;
    while j < m
        invariant
            j <= m <= n,
            n == s@.len(),
            m == suffix@.len(),
            forall|k: int| 0 <= k < j ==> s@[n - m + k] == suffix@[k],
        decreases m - j,
    {
        if s.get_char(n - m + j) != suffix.get_char(j) {
            proof {
                assert(s@.subrange(n - m, n as int)[j as int] != suffix@[j as int]);
            }
            return false;
        }
        j += 1;
    }
    proof {
        assert(s@.subrange(n - m, n as int) =~= suffix@);
    }
    true
}

pub open spec fn spec_starts_with(s: Seq<char>, prefix: Seq<char>) -> bool {
    s.len() >= prefix.len() && s.subrange(0, prefix.len() as int) == prefix
}

pub fn str_starts_with(s: &str, prefix: &str) -> (r: bool)
    ensures
        r == spec_starts_with(s@, prefix@),
{
    let n = s.unicode_len();
    let m = prefix.unicode_len();
    if m > n {
        return false;
    }
    let mut j: usize = 0;
    while j < m
        invariant
            j <= m <= n,
            n == s@.len(),
            m == prefix@.len(),
            forall|k: int| 0 <= k < j ==> s@[k] == prefix@[k],
        decreases m - j,
    {
        if s.get_char(j) != prefix.get_char(j) {
            proof {
                assert(s@.subrange(0, m as int)[j as int] != prefix@[j as int]);
            }
            return false;
        }
        j += 1;
    }
    proof {
        assert(s@.subrange(0, m as int) =~= prefix@);
    }
    true
}

pub open spec fn spec_contains_at(s: Seq<char>, pat: Seq<char>, k: int) -> bool {
    0 <= k && k + pat.len() <= s.len() && s.subrange(k, k + pat.len()) == pat
}

pub open spec fn spec_contains(s: Seq<char>, pat: Seq<char>) -> bool {
    exists|k: int| spec_contains_at(s, pat, k)
}

fn matches_at(s: &str, k: usize, pat: &str) -> (r: bool)
    requires
        k + pat@.len() <= s@.len(),
    ensures
        r == spec_contains_at(s@, pat@, k as int),
{
    let n = s.unicode_len();
    let m = pat.unicode_len();
    let mut j: usize = 0;
    while j < m
        invariant
            j <= m,
            n == s@.len(),
            m == pat@.len(),
            k + m <= n,
            forall|t: int| 0 <= t < j ==> s@[k + t] == pat@[t],
        decreases m - j,
    {
        if s.get_char(k + j) != pat.get_char(j) {
            proof {
                assert(s@.subrange(k as int, k + m)[j as int] != pat@[j as int]);
            }
            return false;
        }
        j += 1;
    }
    proof {
        assert(s@.subrange(k as int, k + m) =~= pat@);
    }
    true
}

pub fn str_contains(s: &str, pat: &str) -> (r: bool)
    ensures
        r == spec_contains(s@, pat@),
{
    let n = s.unicode_len();
    let m = pat.unicode_len();
    if m > n {
        return false;
    }
    if m == 0 {
        proof {
            assert(s@.subrange(0, 0) =~= pat@);
            assert(spec_contains_at(s@, pat@, 0));
        }
        return true;
    }
    let mut k: usize = 0;
    while k <= n - m
        invariant
            k <= n - m + 1,
            0 < m <= n,
            n == s@.len(),
            m == pat@.len(),
            forall|t: int| 0 <= t < k ==> !spec_contains_at(s@, pat@, t),
        decreases n - m + 1 - k,
    {
        if matches_at(s, k, pat) {
            return true;
        }
        k += 1;
    }
    proof {
        assert(forall|t: int| spec_contains_at(s@, pat@, t) ==> 0 <= t <= n - m);
    }
    false
}

/// The character's code point, with ASCII capitals folded to lower case.
pub open spec fn spec_lower_u(c: char) -> u32 {
    if 65 <= c as u32 && c as u32 <= 90 {
        (c as u32 + 32) as u32
    } else {
        c as u32
    }
}

fn lower_u(c: char) -> (r: u32)
    ensures
        r == spec_lower_u(c),
{
    let u = c as u32;
    if 65 <= u && u <= 90 {
        u + 32
    } else {
        u
    }
}

/// `s` begins with `prefix`, compared without regard to ASCII case.
pub open spec fn spec_istarts_with(s: Seq<char>, prefix: Seq<char>) -> bool {
    s.len() >= prefix.len() && forall|k: int|
        0 <= k < prefix.len() ==> spec_lower_u(s[k]) == spec_lower_u(prefix[k])
}

pub fn str_istarts_with(s: &str, prefix: &str) -> (r: bool)
    ensures
        r == spec_istarts_with(s@, prefix@),
{
    let n = s.unicode_len();
    let m = prefix.unicode_len();
    if m > n {
        return false;
    }
    let mut j: usize = 0;
    while j < m
        invariant
            j <= m <= n,
            n == s@.len(),
            m == prefix@.len(),
            forall|k: int| 0 <= k < j ==> spec_lower_u(s@[k]) == spec_lower_u(prefix@[k]),
        decreases m - j,
    {
        if lower_u(s.get_char(j)) != lower_u(prefix.get_char(j)) {
            return false;
        }
        j += 1;
    }
    true
}

/// What follows the last occurrence of `c` in `s`; all of `s` if `c` does not
/// occur.
pub open spec fn spec_after_last(s: Seq<char>, c: char) -> Seq<char>
    decreases s.len(),
{
    if s.len() == 0 {
        Seq::empty()
    } else if s.last() == c {
        Seq::empty()
    } else {
        spec_after_last(s.drop_last(), c).push(s.last())
    }
}

/// What precedes the last occurrence of `c` in `s`; empty if `c` does not
/// occur.
pub open spec fn spec_before_last(s: Seq<char>, c: char) -> Seq<char>
    decreases s.len(),
{
    if s.len() == 0 {
        Seq::empty()
    } else if s.last() == c {
        s.drop_last()
    } else {
        spec_before_last(s.drop_last(), c)
    }
}

proof fn lemma_after_last_found(s: Seq<char>, c: char, i: int)
    requires
        0 <= i < s.len(),
        s[i] == c,
        forall|j: int| i < j < s.len() ==> s[j] != c,
    ensures
        spec_after_last(s, c) == s.subrange(i + 1, s.len() as int),
        spec_before_last(s, c) == s.subrange(0, i),
    decreases s.len(),
{
    if i == s.len() - 1 {
        assert(spec_after_last(s, c) =~= s.subrange(i + 1, s.len() as int));
        assert(s.drop_last() =~= s.subrange(0, i));
    } else {
        lemma_after_last_found(s.drop_last(), c, i);
        assert(s.drop_last().subrange(i + 1, s.len() - 1) =~= s.subrange(i + 1, s.len() - 1));
        assert(s.drop_last().subrange(0, i) =~= s.subrange(0, i));
        assert(spec_after_last(s, c) =~= s.subrange(i + 1, s.len() as int));
    }
}

proof fn lemma_after_last_absent(s: Seq<char>, c: char)
    requires
        forall|j: int| 0 <= j < s.len() ==> s[j] != c,
    ensures
        spec_after_last(s, c) == s,
        spec_before_last(s, c) == Seq::<char>::empty(),
    decreases s.len(),
{
    if s.len() == 0 {
        assert(spec_after_last(s, c) =~= s);
    } else {
        lemma_after_last_absent(s.drop_last(), c);
        assert(spec_after_last(s, c) =~= s);
    }
}

/// Scans backwards for `c`; used by `after_last` and `before_last`.
fn rfind(s: &str, c: char) -> (r: Option<usize>)
    ensures
        match r {
            Some(i) => i < s@.len() && s@[i as int] == c && forall|j: int|
                i < j < s@.len() ==> s@[j] != c,
            None => forall|j: int| 0 <= j < s@.len() ==> s@[j] != c,
        },
{
    let n = s.unicode_len();
    let mut i: usize = n;
    while i > 0
        invariant
            i <= n,
            n == s@.len(),
            forall|j: int| i <= j < n ==> s@[j] != c,
        decreases i,
    {
        i -= 1;
        if s.get_char(i) == c {
            return Some(i);
        }
    }
    None
}

pub fn after_last(s: &str, c: char) -> (r: String)
    ensures
        r@ == spec_after_last(s@, c),
{
    let n = s.unicode_len();
    match rfind(s, c) {
        Some(i) => {
            proof {
                lemma_after_last_found(s@, c, i as int);
            }
            String::from_str(s.substring_char(i + 1, n))
        },
        None => {
            proof {
                lemma_after_last_absent(s@, c);
                assert(s@.subrange(0, n as int) =~= s@);
            }
            String::from_str(s.substring_char(0, n))
        },
    }
}

pub fn before_last(s: &str, c: char) -> (r: String)
    ensures
        r@ == spec_before_last(s@, c),
{
    match rfind(s, c) {
        Some(i) => {
            proof {
                lemma_after_last_found(s@, c, i as int);
            }
            String::from_str(s.substring_char(0, i))
        },
        None => {
            proof {
                lemma_after_last_absent(s@, c);
            }
            String::new()
        },
    }
}

} // verus!
