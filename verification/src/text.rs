//! Verified string helpers used throughout the runner logic.
use vstd::prelude::*;
use vstd::string::*;

verus! {

/// Rust's `char::is_whitespace`: the Unicode `White_Space` property.
pub open spec fn is_ws(c: char) -> bool {
    let u = c as u32;
    ||| 0x9 <= u <= 0xd
    ||| u == 0x20
    ||| u == 0x85
    ||| u == 0xa0
    ||| u == 0x1680
    ||| 0x2000 <= u <= 0x200a
    ||| u == 0x2028
    ||| u == 0x2029
    ||| u == 0x202f
    ||| u == 0x205f
    ||| u == 0x3000
}

/// `s.trim().is_empty()`: every character is whitespace.
pub open spec fn blank(s: Seq<char>) -> bool {
    forall|i: int| 0 <= i < s.len() ==> is_ws(#[trigger] s[i])
}

/// `needle` occurs in `s` at position `i`.
pub open spec fn occurs_at(s: Seq<char>, needle: Seq<char>, i: int) -> bool {
    &&& 0 <= i
    &&& i + needle.len() <= s.len()
    &&& s.subrange(i, i + needle.len()) == needle
}

/// `s.contains(needle)`.
pub open spec fn seq_contains(s: Seq<char>, needle: Seq<char>) -> bool {
    exists|i: int| occurs_at(s, needle, i)
}

/// `s.starts_with(prefix)`.
pub open spec fn seq_starts_with(s: Seq<char>, prefix: Seq<char>) -> bool {
    occurs_at(s, prefix, 0)
}

pub fn char_is_whitespace(c: char) -> (r: bool)
    ensures
        r == is_ws(c),
{
    let u = c as u32;
    (0x9 <= u && u <= 0xd) || u == 0x20 || u == 0x85 || u == 0xa0 || u == 0x1680 || (0x2000 <= u
        && u <= 0x200a) || u == 0x2028 || u == 0x2029 || u == 0x202f || u == 0x205f || u == 0x3000
}

/// Equality of two string slices.
pub fn str_eq(a: &str, b: &str) -> (r: bool)
    ensures
        r == (a@ == b@),
{
    let n = a.unicode_len();
    let m = b.unicode_len();
    if n != m {
        return false;
    }
    let mut i: usize = 0;
    while i < n
        invariant
            n == a@.len(),
            m == b@.len(),
            n == m,
            i <= n,
            forall|j: int| 0 <= j < i ==> a@[j] == b@[j],
        decreases n - i,
    {
        if a.get_char(i) != b.get_char(i) {
            return false;
        }
        i = i + 1;
    }
    assert(a@ =~= b@);
    true
}

/// Whether `needle` occurs in `s` starting at character position `at`.
pub fn matches_at(s: &str, needle: &str, at: usize) -> (r: bool)
    ensures
        r == occurs_at(s@, needle@, at as int),
{
    let n = s.unicode_len();
    let m = needle.unicode_len();
    if at > n || m > n - at {
        return false;
    }
    let mut j: usize = 0;
    while j < m
        invariant
            n == s@.len(),
            m == needle@.len(),
            at + m <= n,
            j <= m,
            forall|k: int| 0 <= k < j ==> s@[at + k] == needle@[k],
        decreases m - j,
    {
        if s.get_char(at + j) != needle.get_char(j) {
            assert(s@.subrange(at as int, at + m)[j as int] != needle@[j as int]);
            return false;
        }
        j = j + 1;
    }
    assert(s@.subrange(at as int, at + m) =~= needle@);
    true
}

/// `s.starts_with(prefix)`.
pub fn starts_with(s: &str, prefix: &str) -> (r: bool)
    ensures
        r == seq_starts_with(s@, prefix@),
{
    matches_at(s, prefix, 0)
}

/// `s.contains(needle)`.
pub fn contains(s: &str, needle: &str) -> (r: bool)
    ensures
        r == seq_contains(s@, needle@),
{
    let n = s.unicode_len();
    let mut i: usize = 0;
    while i < n
        invariant
            n == s@.len(),
            i <= n,
            forall|k: int| 0 <= k < i ==> !occurs_at(s@, needle@, k),
        decreases n - i,
    {
        if matches_at(s, needle, i) {
            return true;
        }
        i = i + 1;
    }
    if matches_at(s, needle, n) {
        return true;
    }
    assert forall|k: int| !occurs_at(s@, needle@, k) by {
        if 0 <= k && k + needle@.len() <= s@.len() {
            assert(k <= n);
        }
    }
    false
}

/// `s.trim().is_empty()`.
pub fn is_blank(s: &str) -> (r: bool)
    ensures
        r == blank(s@),
{
    let n = s.unicode_len();
    let mut i: usize = 0;
    while i < n
        invariant
            n == s@.len(),
            i <= n,
            forall|k: int| 0 <= k < i ==> is_ws(#[trigger] s@[k]),
        decreases n - i,
    {
        if !char_is_whitespace(s.get_char(i)) {
            return false;
        }
        i = i + 1;
    }
    true
}

/// An owned copy of a string slice.
pub fn owned(s: &str) -> (r: String)
    ensures
        r@ == s@,
{
    s.to_owned()
}

/// Appends one character to a string (`String::push`).
#[verifier::external_body]
pub fn push_char(s: &mut String, c: char)
    ensures
        final(s)@ == old(s)@.push(c),
{
    s.push(c);
}

/// `a + b` as a new string.
pub fn concat2(a: &str, b: &str) -> (r: String)
    ensures
        r@ == a@ + b@,
{
    let mut r = a.to_owned();
    r.append(b);
    r
}

/// `a + b + c` as a new string.
pub fn concat3(a: &str, b: &str, c: &str) -> (r: String)
    ensures
        r@ == a@ + b@ + c@,
{
    let mut r = a.to_owned();
    r.append(b);
    r.append(c);
    r
}

/// Replaces every occurrence of `from` by `to` (`str::replace` with single characters).
pub open spec fn replace_char(s: Seq<char>, from: char, to: char) -> Seq<char> {
    Seq::new(s.len(), |i: int| if s[i] == from { to } else { s[i] })
}

pub fn replace_char_exec(s: &str, from: char, to: char) -> (r: String)
    ensures
        r@ == replace_char(s@, from, to),
{
    let n = s.unicode_len();
    let mut r = String::new();
    let mut i: usize = 0;
    while i < n
        invariant
            n == s@.len(),
            i <= n,
            r@ =~= replace_char(s@, from, to).subrange(0, i as int),
        decreases n - i,
    {
        let c = s.get_char(i);
        if c == from {
            push_char(&mut r, to);
        } else {
            push_char(&mut r, c);
        }
        i = i + 1;
    }
    assert(replace_char(s@, from, to).subrange(0, n as int) =~= replace_char(s@, from, to));
    r
}

pub open spec fn digit_char(d: nat) -> char {
    if d == 0 { '0' } else if d == 1 { '1' } else if d == 2 { '2' } else if d == 3 { '3' }
    else if d == 4 { '4' } else if d == 5 { '5' } else if d == 6 { '6' } else if d == 7 { '7' }
    else if d == 8 { '8' } else { '9' }
}

/// The decimal digits of a natural number, most significant first.
pub open spec fn nat_decimal(n: nat) -> Seq<char>
    decreases n,
{
    if n < 10 {
        seq![digit_char(n)]
    } else {
        nat_decimal(n / 10).push(digit_char(n % 10))
    }
}

/// The `Display` text of an integer: its decimal digits, after a `-` when negative.
pub open spec fn int_decimal(i: int) -> Seq<char> {
    if i < 0 {
        seq!['-'] + nat_decimal((-i) as nat)
    } else {
        nat_decimal(i as nat)
    }
}

fn digit_exec(d: u64) -> (c: char)
    requires
        d < 10,
    ensures
        c == digit_char(d as nat),
{
    if d == 0 { '0' } else if d == 1 { '1' } else if d == 2 { '2' } else if d == 3 { '3' }
    else if d == 4 { '4' } else if d == 5 { '5' } else if d == 6 { '6' } else if d == 7 { '7' }
    else if d == 8 { '8' } else { '9' }
}

/// Decimal text of an unsigned integer.
pub fn u64_decimal(n: u64) -> (r: String)
    ensures
        r@ == nat_decimal(n as nat),
    decreases n,
{
    if n < 10 {
        let mut r = String::new();
        push_char(&mut r, digit_exec(n));
        proof {
            assert(r@ =~= seq![digit_char(n as nat)]);
        }
        r
    } else {
        let mut r = u64_decimal(n / 10);
        push_char(&mut r, digit_exec(n % 10));
        r
    }
}

/// Decimal text of a signed integer (`i64::to_string`).
pub fn i64_decimal(i: i64) -> (r: String)
    ensures
        r@ == int_decimal(i as int),
{
    if i < 0 {
        let mag: u64 = if i == i64::MIN {
            9223372036854775808u64
        } else {
            (-i) as u64
        };
        let digits = u64_decimal(mag);
        let mut r = String::new();
        push_char(&mut r, '-');
        r.append(digits.as_str());
        proof {
            assert(r@ =~= seq!['-'] + nat_decimal((-(i as int)) as nat));
        }
        r
    } else {
        u64_decimal(i as u64)
    }
}

/// The views of a sequence of strings.
pub open spec fn strings_view(v: Seq<String>) -> Seq<Seq<char>> {
    v.map_values(|s: String| s@)
}

/// `s.split(sep)`: the pieces between occurrences of `sep`, empty ones included.
pub open spec fn split_on(s: Seq<char>, sep: char) -> Seq<Seq<char>>
    decreases s.len(),
{
    if s.len() == 0 {
        seq![Seq::empty()]
    } else {
        let parts = split_on(s.drop_last(), sep);
        if s.last() == sep {
            parts.push(Seq::empty())
        } else {
            parts.update(parts.len() - 1, parts.last().push(s.last()))
        }
    }
}

pub proof fn lemma_split_on_nonempty(s: Seq<char>, sep: char)
    ensures
        split_on(s, sep).len() >= 1,
    decreases s.len(),
{
    if s.len() > 0 {
        lemma_split_on_nonempty(s.drop_last(), sep);
    }
}

/// `parts.join(sep)`.
pub open spec fn join_on(parts: Seq<Seq<char>>, sep: Seq<char>) -> Seq<char>
    decreases parts.len(),
{
    if parts.len() == 0 {
        Seq::empty()
    } else if parts.len() == 1 {
        parts[0]
    } else {
        join_on(parts.drop_last(), sep) + sep + parts.last()
    }
}

/// Splits `s` at every `sep` character.
pub fn split_char(s: &str, sep: char) -> (r: Vec<String>)
    ensures
        strings_view(r@) == split_on(s@, sep),
{
    let n = s.unicode_len();
    let mut done: Vec<String> = Vec::new();
    let mut cur = String::new();
    let mut i: usize = 0;
    proof {
        assert(s@.subrange(0, 0) =~= Seq::<char>::empty());
        assert(strings_view(done@).push(cur@) =~= seq![Seq::<char>::empty()]);
    }
    while i < n
        invariant
            n == s@.len(),
            i <= n,
            strings_view(done@).push(cur@) == split_on(s@.subrange(0, i as int), sep),
        decreases n - i,
    {
        let c = s.get_char(i);
        let ghost pre = s@.subrange(0, i as int);
        proof {
            assert(s@.subrange(0, i + 1).drop_last() =~= pre);
            assert(s@.subrange(0, i + 1).last() == c);
        }
        if c == sep {
            let ghost old_done = done@;
            done.push(cur);
            cur = String::new();
            proof {
                assert(strings_view(done@) =~= strings_view(old_done).push(
                    strings_view(done@).last(),
                ));
                assert(strings_view(done@).push(cur@) =~= strings_view(old_done).push(
                    strings_view(done@).last(),
                ).push(Seq::empty()));
            }
        } else {
            let ghost old_cur = cur@;
            push_char(&mut cur, c);
            proof {
                let parts = split_on(pre, sep);
                assert(strings_view(done@).push(cur@) =~= parts.update(
                    parts.len() - 1,
                    parts.last().push(c),
                ));
            }
        }
        i = i + 1;
    }
    let ghost last_done = done@;
    done.push(cur);
    proof {
        assert(s@.subrange(0, n as int) =~= s@);
        assert(strings_view(done@) =~= strings_view(last_done).push(strings_view(done@).last()));
    }
    done
}

/// Joins `parts` with `sep` between neighbours.
pub fn join_strings(parts: &Vec<String>, sep: &str) -> (r: String)
    ensures
        r@ == join_on(strings_view(parts@), sep@),
{
    let mut r = String::new();
    let mut i: usize = 0;
    proof {
        assert(strings_view(parts@).subrange(0, 0).len() == 0);
    }
    while i < parts.len()
        invariant
            i <= parts.len(),
            r@ == join_on(strings_view(parts@).subrange(0, i as int), sep@),
        decreases parts.len() - i,
    {
        let ghost sv = strings_view(parts@);
        proof {
            assert(sv.subrange(0, i + 1).drop_last() =~= sv.subrange(0, i as int));
            assert(sv.subrange(0, i + 1).last() == parts@[i as int]@);
        }
        if i > 0 {
            r.append(sep);
        }
        r.append(parts[i].as_str());
        proof {
            if i == 0 {
                assert(sv.subrange(0, 1)[0] == parts@[0]@);
            }
        }
        i = i + 1;
    }
    proof {
        assert(strings_view(parts@).subrange(0, parts@.len() as int) =~= strings_view(parts@));
    }
    r
}

/// `s.trim_start()`.
pub open spec fn trim_start_ws(s: Seq<char>) -> Seq<char>
    decreases s.len(),
{
    if s.len() > 0 && is_ws(s[0]) {
        trim_start_ws(s.drop_first())
    } else {
        s
    }
}

/// `s.trim_end()`.
pub open spec fn trim_end_ws(s: Seq<char>) -> Seq<char>
    decreases s.len(),
{
    if s.len() > 0 && is_ws(s.last()) {
        trim_end_ws(s.drop_last())
    } else {
        s
    }
}

/// `s.trim()`.
pub open spec fn trim_ws(s: Seq<char>) -> Seq<char> {
    trim_end_ws(trim_start_ws(s))
}

proof fn lemma_trim_start_step(s: Seq<char>, i: int)
    requires
        0 <= i < s.len(),
        is_ws(s[i]),
    ensures
        trim_start_ws(s.subrange(i, s.len() as int)) == trim_start_ws(s.subrange(i + 1, s.len() as int)),
{
    assert(s.subrange(i, s.len() as int).drop_first() =~= s.subrange(i + 1, s.len() as int));
}

proof fn lemma_trim_end_step(s: Seq<char>, j: int)
    requires
        0 < j <= s.len(),
        is_ws(s[j - 1]),
    ensures
        trim_end_ws(s.subrange(0, j)) == trim_end_ws(s.subrange(0, j - 1)),
{
    assert(s.subrange(0, j).drop_last() =~= s.subrange(0, j - 1));
}

/// `s.trim()`: `s` without leading and trailing whitespace.
pub fn trim(s: &str) -> (r: &str)
    ensures
        r@ == trim_ws(s@),
{
    let n = s.unicode_len();
    let mut i: usize = 0;
    proof {
        assert(s@.subrange(0, n as int) =~= s@);
    }
    while i < n && char_is_whitespace(s.get_char(i))
        invariant
            n == s@.len(),
            i <= n,
            trim_start_ws(s@) == trim_start_ws(s@.subrange(i as int, n as int)),
        decreases n - i,
    {
        proof {
            lemma_trim_start_step(s@, i as int);
        }
        i = i + 1;
    }
    let t = s.substring_char(i, n);
    proof {
        if i < n {
            assert(!is_ws(t@[0]));
        }
        assert(trim_start_ws(s@) == t@);
    }
    let m = t.unicode_len();
    let mut j: usize = m;
    proof {
        assert(t@.subrange(0, m as int) =~= t@);
    }
    while j > 0 && char_is_whitespace(t.get_char(j - 1))
        invariant
            m == t@.len(),
            j <= m,
            trim_end_ws(t@) == trim_end_ws(t@.subrange(0, j as int)),
        decreases j,
    {
        proof {
            lemma_trim_end_step(t@, j as int);
        }
        j = j - 1;
    }
    let r = t.substring_char(0, j);
    proof {
        if j > 0 {
            assert(r@.last() == t@[j - 1]);
        }
        assert(trim_end_ws(r@) == r@);
    }
    r
}

/// Whether every character of `s` is an ASCII decimal digit.
pub open spec fn all_digits(s: Seq<char>) -> bool {
    forall|i: int| 0 <= i < s.len() ==> '0' <= #[trigger] s[i] <= '9'
}

/// The number written by a string of decimal digits.
pub open spec fn digits_value(s: Seq<char>) -> nat
    decreases s.len(),
{
    if s.len() == 0 {
        0
    } else {
        digits_value(s.drop_last()) * 10 + ((s.last() as nat) - ('0' as nat)) as nat
    }
}

/// `s.parse::<i64>()`: an optional sign, then at least one decimal digit, and a value
/// in range.
pub open spec fn parse_i64(s: Seq<char>) -> Option<i64> {
    let neg = s.len() > 0 && s[0] == '-';
    let body = if s.len() > 0 && (s[0] == '-' || s[0] == '+') {
        s.drop_first()
    } else {
        s
    };
    if body.len() == 0 || !all_digits(body) {
        None
    } else {
        let v: int = if neg {
            -(digits_value(body) as int)
        } else {
            digits_value(body) as int
        };
        if i64::MIN <= v <= i64::MAX {
            Some(v as i64)
        } else {
            None
        }
    }
}

proof fn lemma_digits_value_grows(s: Seq<char>, i: int)
    requires
        0 <= i <= s.len(),
        all_digits(s),
    ensures
        digits_value(s.subrange(0, i)) <= digits_value(s),
    decreases s.len() - i,
{
    if i < s.len() {
        lemma_digits_value_grows(s, i + 1);
        assert(s.subrange(0, i + 1).drop_last() =~= s.subrange(0, i));
    } else {
        assert(s.subrange(0, i) =~= s);
    }
}

/// Parses a decimal `i64` as `str::parse` does.
pub fn parse_i64_exec(s: &str) -> (r: Option<i64>)
    ensures
        r == parse_i64(s@),
{
    let n = s.unicode_len();
    let neg = n > 0 && s.get_char(0) == '-';
    let start: usize = if n > 0 && (s.get_char(0) == '-' || s.get_char(0) == '+') {
        1
    } else {
        0
    };
    let body = s.substring_char(start, n);
    proof {
        if start == 1 {
            assert(body@ =~= s@.drop_first());
        } else {
            assert(body@ =~= s@);
        }
    }
    let m = body.unicode_len();
    if m == 0 {
        return None;
    }
    let mut acc: u128 = 0;
    let mut i: usize = 0;
    proof {
        assert(body@.subrange(0, 0) =~= Seq::<char>::empty());
    }
    while i < m
        invariant
            m == body@.len(),
            body@ == (if s@.len() > 0 && (s@[0] == '-' || s@[0] == '+') {
                s@.drop_first()
            } else {
                s@
            }),
            i <= m,
            acc == digits_value(body@.subrange(0, i as int)),
            acc <= 9223372036854775808u128,
            all_digits(body@.subrange(0, i as int)),
        decreases m - i,
    {
        let c = body.get_char(i);
        proof {
            assert(body@.subrange(0, i + 1).drop_last() =~= body@.subrange(0, i as int));
            assert(body@.subrange(0, i + 1).last() == c);
        }
        if !('0' <= c && c <= '9') {
            proof {
                assert(!all_digits(body@)) by {
                    assert(body@[i as int] == c);
                }
            }
            return None;
        }
        let d = (c as u32 - '0' as u32) as u128;
        let next = acc * 10 + d;
        if next > 9223372036854775808u128 {
            proof {
                assert(all_digits(body@.subrange(0, i + 1)));
                if all_digits(body@) {
                    lemma_digits_value_grows(body@, i + 1);
                }
            }
            return None;
        }
        acc = next;
        i = i + 1;
    }
    proof {
        assert(body@.subrange(0, m as int) =~= body@);
    }
    if neg {
        if acc == 9223372036854775808u128 {
            Some(i64::MIN)
        } else {
            Some(-(acc as i64))
        }
    } else if acc <= 9223372036854775807u128 {
        Some(acc as i64)
    } else {
        None
    }
}

/// `a < b` for strings: lexicographic by character.
pub open spec fn str_lt(a: Seq<char>, b: Seq<char>) -> bool
    decreases a.len(),
{
    if a.len() == 0 {
        b.len() > 0
    } else if b.len() == 0 {
        false
    } else if a[0] != b[0] {
        a[0] < b[0]
    } else {
        str_lt(a.drop_first(), b.drop_first())
    }
}

pub proof fn lemma_str_lt_trichotomy(a: Seq<char>, b: Seq<char>)
    ensures
        str_lt(a, b) || str_lt(b, a) || a == b,
        !(str_lt(a, b) && str_lt(b, a)),
        !str_lt(a, a),
    decreases a.len(),
{
    if a.len() > 0 && b.len() > 0 {
        lemma_str_lt_trichotomy(a.drop_first(), b.drop_first());
        if a[0] == b[0] && a.drop_first() == b.drop_first() {
            assert(a =~= seq![a[0]] + a.drop_first());
            assert(b =~= seq![b[0]] + b.drop_first());
        }
    } else if a.len() == 0 && b.len() == 0 {
        assert(a =~= b);
    }
    if a.len() > 0 {
        lemma_str_lt_trichotomy(a.drop_first(), a.drop_first());
    }
}

pub proof fn lemma_str_lt_transitive(a: Seq<char>, b: Seq<char>, c: Seq<char>)
    requires
        str_lt(a, b),
        str_lt(b, c),
    ensures
        str_lt(a, c),
    decreases a.len(),
{
    if a.len() > 0 && b.len() > 0 && c.len() > 0 && a[0] == b[0] && b[0] == c[0] {
        lemma_str_lt_transitive(a.drop_first(), b.drop_first(), c.drop_first());
    }
}

/// Strictly increasing strings.
pub open spec fn strictly_sorted(v: Seq<Seq<char>>) -> bool {
    forall|i: int, j: int| 0 <= i < j < v.len() ==> str_lt(#[trigger] v[i], #[trigger] v[j])
}

/// `a < b` on strings (`String`'s `Ord`, which orders by bytes and so by characters).
pub fn str_less(a: &str, b: &str) -> (r: bool)
    ensures
        r == str_lt(a@, b@),
{
    let n = a.unicode_len();
    let m = b.unicode_len();
    let mut i: usize = 0;
    proof {
        assert(a@.subrange(0, n as int) =~= a@);
        assert(b@.subrange(0, m as int) =~= b@);
    }
    while i < n && i < m && a.get_char(i) == b.get_char(i)
        invariant
            n == a@.len(),
            m == b@.len(),
            i <= n,
            i <= m,
            str_lt(a@, b@) == str_lt(a@.subrange(i as int, n as int), b@.subrange(i as int, m as int)),
        decreases n - i,
    {
        proof {
            assert(a@.subrange(i as int, n as int).drop_first() =~= a@.subrange(i + 1, n as int));
            assert(b@.subrange(i as int, m as int).drop_first() =~= b@.subrange(i + 1, m as int));
        }
        i = i + 1;
    }
    if i == n {
        i < m
    } else if i == m {
        false
    } else {
        a.get_char(i) < b.get_char(i)
    }
}

/// Inserts `x` into a strictly sorted list, unless it is there already.
pub fn insert_sorted_unique(v: &mut Vec<String>, x: String)
    requires
        strictly_sorted(strings_view(old(v)@)),
    ensures
        strictly_sorted(strings_view(final(v)@)),
        strings_view(final(v)@).to_set() == strings_view(old(v)@).to_set().insert(x@),
{
    let ghost sv = strings_view(v@);
    let mut j: usize = 0;
    while j < v.len() && str_less(v[j].as_str(), x.as_str())
        invariant
            j <= v.len(),
            sv == strings_view(v@),
            strictly_sorted(sv),
            forall|k: int| 0 <= k < j ==> str_lt(#[trigger] sv[k], x@),
        decreases v.len() - j,
    {
        j = j + 1;
    }
    if j < v.len() && str_eq(v[j].as_str(), x.as_str()) {
        proof {
            assert(sv[j as int] == x@);
            assert(sv.to_set().insert(x@) =~= sv.to_set());
        }
        return;
    }
    proof {
        if j < v.len() {
            lemma_str_lt_trichotomy(sv[j as int], x@);
            assert(str_lt(x@, sv[j as int]));
        }
    }
    v.insert(j, x);
    let ghost nv = strings_view(v@);
    proof {
        assert(nv =~= sv.insert(j as int, x@));
        assert forall|a: int, b: int| 0 <= a < b < nv.len() implies str_lt(#[trigger] nv[a], #[trigger] nv[b]) by {
            if b < j {
            } else if a < j && b == j {
            } else if a < j && b > j {
                assert(str_lt(sv[a], x@));
                if j < sv.len() {
                    lemma_str_lt_trichotomy(sv[j as int], x@);
                    if b - 1 > j {
                        assert(str_lt(sv[j as int], sv[b - 1]));
                        lemma_str_lt_transitive(x@, sv[j as int], sv[b - 1]);
                    }
                    lemma_str_lt_transitive(sv[a], x@, sv[b - 1]);
                }
            } else if a == j {
                lemma_str_lt_trichotomy(sv[j as int], x@);
                if b - 1 > j {
                    assert(str_lt(sv[j as int], sv[b - 1]));
                    lemma_str_lt_transitive(x@, sv[j as int], sv[b - 1]);
                }
            } else {
            }
        }
        assert forall|y: Seq<char>| nv.to_set().contains(y) <==> sv.to_set().insert(x@).contains(y) by {
            if nv.to_set().contains(y) {
                let k = choose|k: int| 0 <= k < nv.len() && nv[k] == y;
                if k < j {
                    assert(sv[k] == y);
                } else if k > j {
                    assert(sv[k - 1] == y);
                }
            }
            if sv.to_set().contains(y) {
                let k = choose|k: int| 0 <= k < sv.len() && sv[k] == y;
                if k < j {
                    assert(nv[k] == y);
                } else {
                    assert(nv[k + 1] == y);
                }
            }
            if y == x@ {
                assert(nv[j as int] == y);
            }
        }
        assert(nv.to_set() =~= sv.to_set().insert(x@));
    }
}

proof fn lemma_sorted_first_is_least(v: Seq<Seq<char>>, y: Seq<char>)
    requires
        strictly_sorted(v),
        v.len() > 0,
        v.to_set().contains(y),
        y != v[0],
    ensures
        str_lt(v[0], y),
{
    let k = choose|k: int| 0 <= k < v.len() && v[k] == y;
    assert(v[k] == y);
    if k == 0 {
    } else {
        assert(str_lt(v[0], v[k]));
    }
}

/// A strictly sorted list is determined by its set of elements.
pub proof fn lemma_sorted_unique(a: Seq<Seq<char>>, b: Seq<Seq<char>>)
    requires
        strictly_sorted(a),
        strictly_sorted(b),
        a.to_set() == b.to_set(),
    ensures
        a == b,
    decreases a.len(),
{
    if a.len() == 0 {
        if b.len() > 0 {
            assert(b.to_set().contains(b[0]));
            assert(a.to_set().contains(b[0]));
        }
        assert(a =~= b);
    } else {
        assert(a.to_set().contains(a[0]));
        assert(b.len() > 0) by {
            assert(b.to_set().contains(a[0]));
        }
        assert(b.to_set().contains(b[0]));
        if a[0] != b[0] {
            lemma_sorted_first_is_least(a, b[0]);
            lemma_sorted_first_is_least(b, a[0]);
            lemma_str_lt_trichotomy(a[0], b[0]);
        }
        let ar = a.drop_first();
        let br = b.drop_first();
        assert forall|y: Seq<char>| ar.to_set().contains(y) <==> br.to_set().contains(y) by {
            if ar.to_set().contains(y) {
                let k = choose|k: int| 0 <= k < ar.len() && ar[k] == y;
                assert(a[k + 1] == y);
                assert(str_lt(a[0], a[k + 1]));
                lemma_str_lt_trichotomy(a[0], y);
                assert(b.to_set().contains(y));
                let kb = choose|kb: int| 0 <= kb < b.len() && b[kb] == y;
                assert(kb != 0);
                assert(br[kb - 1] == y);
            }
            if br.to_set().contains(y) {
                let k = choose|k: int| 0 <= k < br.len() && br[k] == y;
                assert(b[k + 1] == y);
                assert(str_lt(b[0], b[k + 1]));
                lemma_str_lt_trichotomy(b[0], y);
                assert(a.to_set().contains(y));
                let ka = choose|ka: int| 0 <= ka < a.len() && a[ka] == y;
                assert(ka != 0);
                assert(ar[ka - 1] == y);
            }
        }
        assert(ar.to_set() =~= br.to_set());
        lemma_sorted_unique(ar, br);
        assert(a =~= seq![a[0]] + ar);
        assert(b =~= seq![b[0]] + br);
    }
}

proof fn lemma_push_to_set(s: Seq<Seq<char>>, x: Seq<char>)
    ensures
        s.push(x).to_set() == s.to_set().insert(x),
{
    assert forall|y: Seq<char>| s.push(x).to_set().contains(y) <==> s.to_set().insert(x).contains(y) by {
        if s.push(x).contains(y) {
            let k = choose|k: int| 0 <= k < s.push(x).len() && s.push(x)[k] == y;
            if k < s.len() {
                assert(s[k] == y);
            }
        }
        if s.contains(y) {
            let k = choose|k: int| 0 <= k < s.len() && s[k] == y;
            assert(s.push(x)[k] == y);
        }
        if y == x {
            assert(s.push(x)[s.len() as int] == y);
        }
    }
    assert(s.push(x).to_set() =~= s.to_set().insert(x));
}

/// The distinct elements of a list, in increasing order (`sort` then `dedup`).
pub open spec fn sorted_distinct(keys: Seq<Seq<char>>) -> Seq<Seq<char>> {
    choose|v: Seq<Seq<char>>| strictly_sorted(v) && v.to_set() == keys.to_set()
}

/// The distinct elements of a list of strings, in increasing order.
pub fn sort_dedup(keys: &Vec<String>) -> (r: Vec<String>)
    ensures
        strings_view(r@) == sorted_distinct(strings_view(keys@)),
{
    let ghost kv = strings_view(keys@);
    let mut out: Vec<String> = Vec::new();
    let mut i: usize = 0;
    proof {
        assert(strings_view(out@).to_set() =~= kv.subrange(0, 0).to_set());
    }
    while i < keys.len()
        invariant
            i <= keys.len(),
            kv == strings_view(keys@),
            strictly_sorted(strings_view(out@)),
            strings_view(out@).to_set() == kv.subrange(0, i as int).to_set(),
        decreases keys.len() - i,
    {
        insert_sorted_unique(&mut out, keys[i].clone());
        proof {
            assert(kv.subrange(0, i + 1) =~= kv.subrange(0, i as int).push(kv[i as int]));
            lemma_push_to_set(kv.subrange(0, i as int), kv[i as int]);
        }
        i = i + 1;
    }
    proof {
        assert(kv.subrange(0, keys@.len() as int) =~= kv);
        let ov = strings_view(out@);
        assert(strictly_sorted(ov) && ov.to_set() == kv.to_set());
        let c = sorted_distinct(kv);
        lemma_sorted_unique(ov, c);
    }
    out
}

} // verus!
