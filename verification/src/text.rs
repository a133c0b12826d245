//! Character-level helpers on strings, stated over `Seq<char>`.

use vstd::prelude::*;
use vstd::std_specs::iter::IteratorSpec;

verus! {

/// Whether `c` is a Unicode `White_Space` code point (what `char::is_whitespace` tests).
pub open spec fn spec_is_whitespace(c: char) -> bool {
    let u = c as u32;
    ||| u == 0x20
    ||| (0x09 <= u && u <= 0x0d)
    ||| u == 0x85
    ||| u == 0xa0
    ||| u == 0x1680
    ||| (0x2000 <= u && u <= 0x200a)
    ||| u == 0x2028
    ||| u == 0x2029
    ||| u == 0x202f
    ||| u == 0x205f
    ||| u == 0x3000
}

/// A string is blank when it is empty after trimming, i.e. every character is whitespace.
pub open spec fn spec_is_blank(s: Seq<char>) -> bool {
    forall|i: int| 0 <= i < s.len() ==> spec_is_whitespace(#[trigger] s[i])
}

/// Tests one character for Unicode whitespace.
pub fn is_whitespace_char(c: char) -> (r: bool)
    ensures
        r == spec_is_whitespace(c),
{
    let u = c as u32;
    u == 0x20 || (0x09 <= u && u <= 0x0d) || u == 0x85 || u == 0xa0 || u == 0x1680 || (0x2000
        <= u && u <= 0x200a) || u == 0x2028 || u == 0x2029 || u == 0x202f || u == 0x205f || u
        == 0x3000
}

/// True when the string holds only whitespace (so trimming leaves it empty).
pub fn is_blank(s: &str) -> (r: bool)
    ensures
        r == spec_is_blank(s@),
{
    let n = s.unicode_len();
    let mut i: usize = 0;
    while i < n
        invariant
            n == s@.len(),
            i <= n,
            forall|j: int| 0 <= j < i ==> spec_is_whitespace(#[trigger] s@[j]),
        decreases n - i,
    {
        let c = s.get_char(i);
        if !is_whitespace_char(c) {
            return false;
        }
        i = i + 1;
    }
    true
}

/// True when `c` occurs in the string.
pub fn contains_char(s: &str, c: char) -> (r: bool)
    ensures
        r == s@.contains(c),
{
    let n = s.unicode_len();
    let mut i: usize = 0;
    while i < n
        invariant
            n == s@.len(),
            i <= n,
            forall|j: int| 0 <= j < i ==> #[trigger] s@[j] != c,
        decreases n - i,
    {
        if s.get_char(i) == c {
            assert(s@[i as int] == c);
            return true;
        }
        i = i + 1;
    }
    false
}

/// True when the string's first character is `c`.
pub fn starts_with_char(s: &str, c: char) -> (r: bool)
    ensures
        r == (s@.len() > 0 && s@[0] == c),
{
    let n = s.unicode_len();
    if n == 0 {
        false
    } else {
        s.get_char(0) == c
    }
}

/// Character-wise equality of two strings.
pub fn str_eq(a: &str, b: &str) -> (r: bool)
    ensures
        r == (a@ == b@),
{
    let n = a.unicode_len();
    let m = b.unicode_len();
    if n != m {
        return false;
    }
    let mut i: usize = 0;
    while i < n
        invariant
            n == a@.len(),
            m == b@.len(),
            n == m,
            i <= n,
            forall|j: int| 0 <= j < i ==> #[trigger] a@[j] == b@[j],
        decreases n - i,
    {
        if a.get_char(i) != b.get_char(i) {
            return false;
        }
        i = i + 1;
    }
    assert(a@ =~= b@);
    true
}

/// Copies an optional string.
pub fn clone_opt_string(o: &Option<String>) -> (r: Option<String>)
    ensures
        r == *o,
{
    match o {
        Some(s) => Some(s.clone()),
        None => None,
    }
}

/// The characters of a string, in order.
pub fn chars_of(s: &str) -> (r: Vec<char>)
    ensures
        r@ == s@,
{
    broadcast use vstd::string::group_string_axioms;

    let mut r: Vec<char> = Vec::new();
    for c in iter: s.chars()
        invariant
            r@ == iter.seq().take(iter.index() as int),
    {
        r.push(c);
    }
    assert(r@ =~= s@);
    r
}

/// `String::push`.
///
/// Claimed: the character is appended at the end.
#[verifier::external_body]
pub(crate) fn push_char(s: &mut String, c: char)
    ensures
        final(s)@ == old(s)@.push(c),
{
    s.push(c);
}

/// The string of the characters `chars[from..to]`.
pub fn string_from_chars(chars: &Vec<char>, from: usize, to: usize) -> (r: String)
    requires
        from <= to <= chars@.len(),
    ensures
        r@ == chars@.subrange(from as int, to as int),
{
    let mut r = String::new();
    let mut i: usize = from;
    while i < to
        invariant
            from <= i <= to,
            to <= chars@.len(),
            r@ == chars@.subrange(from as int, i as int),
        decreases to - i,
    {
        push_char(&mut r, chars[i]);
        proof {
            assert(r@ =~= chars@.subrange(from as int, i + 1));
        }
        i = i + 1;
    }
    r
}

/// A line as `str::lines` yields it: a trailing carriage return is dropped
/// from a line that a newline ended.
pub open spec fn strip_cr(line: Seq<char>) -> Seq<char> {
    if line.len() > 0 && line.last() == '\r' {
        line.drop_last()
    } else {
        line
    }
}

/// Lines completed so far, and the line being read, after reading `s`.
pub open spec fn lines_state(s: Seq<char>) -> (Seq<Seq<char>>, Seq<char>)
    decreases s.len(),
{
    if s.len() == 0 {
        (Seq::empty(), Seq::empty())
    } else {
        let (done, cur) = lines_state(s.drop_last());
        if s.last() == '\n' {
            (done.push(strip_cr(cur)), Seq::empty())
        } else {
            (done, cur.push(s.last()))
        }
    }
}

/// The lines of a text as `str::lines` gives them: split at `\n` (a `\r`
/// before it dropped), without an empty last line after a final newline.
pub open spec fn lines_of(s: Seq<char>) -> Seq<Seq<char>> {
    let (done, cur) = lines_state(s);
    if cur.len() == 0 {
        done
    } else {
        done.push(cur)
    }
}

/// `rg` delimits `line` within `chars`.
pub open spec fn delimits(chars: Seq<char>, rg: (usize, usize), line: Seq<char>) -> bool {
    rg.0 <= rg.1 <= chars.len() && chars.subrange(rg.0 as int, rg.1 as int) == line
}

/// The lines of a character sequence, as `(start, end)` ranges of each
/// line's characters.
pub fn line_ranges(chars: &Vec<char>) -> (r: Vec<(usize, usize)>)
    ensures
        r@.len() == lines_of(chars@).len(),
        forall|k: int| 0 <= k < r@.len() ==> delimits(chars@, #[trigger] r@[k], lines_of(chars@)[k]),
{
    let n = chars.len();
    let mut r: Vec<(usize, usize)> = Vec::new();
    let mut start: usize = 0;
    let mut i: usize = 0;
    while i < n
        invariant
            n == chars@.len(),
            start <= i <= n,
            lines_state(chars@.subrange(0, i as int)).1 == chars@.subrange(start as int, i as int),
            r@.len() == lines_state(chars@.subrange(0, i as int)).0.len(),
            forall|k: int|
                0 <= k < r@.len() ==> delimits(
                    chars@,
                    #[trigger] r@[k],
                    lines_state(chars@.subrange(0, i as int)).0[k],
                ),
        decreases n - i,
    {
        let ghost pre = chars@.subrange(0, i as int);
        let ghost prev = lines_state(pre);
        assert(chars@.subrange(0, i + 1).drop_last() =~= pre);
        assert(chars@.subrange(0, i + 1).last() == chars@[i as int]);
        if chars[i] == '\n' {
            let end = if i > start && chars[i - 1] == '\r' {
                i - 1
            } else {
                i
            };
            proof {
                let cur = chars@.subrange(start as int, i as int);
                if i > start && chars@[i - 1] == '\r' {
                    assert(cur.drop_last() =~= chars@.subrange(start as int, i - 1));
                }
                assert(strip_cr(cur) == chars@.subrange(start as int, end as int));
            }
            let ghost old_r = r@;
            let ghost old_start = start;
            r.push((start, end));
            start = i + 1;
            proof {
                assert(chars@.subrange(start as int, i + 1) =~= Seq::<char>::empty());
                let post = lines_state(chars@.subrange(0, i + 1));
                assert(post.0 == prev.0.push(strip_cr(prev.1)));
                assert forall|k: int| 0 <= k < r@.len() implies delimits(
                    chars@,
                    #[trigger] r@[k],
                    post.0[k],
                ) by {
                    if k < old_r.len() {
                        assert(r@[k] == old_r[k]);
                        assert(delimits(chars@, old_r[k], prev.0[k]));
                    }
                }
            }
        } else {
            proof {
                assert(chars@.subrange(start as int, i + 1) =~= chars@.subrange(start as int, i as int).push(chars@[i as int]));
                let post = lines_state(chars@.subrange(0, i + 1));
                assert(post.0 == prev.0);
            }
        }
        i = i + 1;
    }
    proof {
        assert(chars@.subrange(0, n as int) =~= chars@);
    }
    if start < n {
        let ghost old_r = r@;
        r.push((start, n));
        proof {
            assert forall|k: int| 0 <= k < r@.len() implies delimits(
                chars@,
                #[trigger] r@[k],
                lines_of(chars@)[k],
            ) by {
                if k < old_r.len() {
                    assert(r@[k] == old_r[k]);
                }
            }
        }
    }
    r
}

/// An ASCII decimal digit.
pub open spec fn is_ascii_digit(c: char) -> bool {
    '0' <= c && c <= '9'
}

/// The value of a digit character.
pub open spec fn digit_value(c: char) -> nat {
    (c as u32 - '0' as u32) as nat
}

/// The value of a sequence of decimal digits.
pub open spec fn digits_value(s: Seq<char>) -> nat
    decreases s.len(),
{
    if s.len() == 0 {
        0
    } else {
        digits_value(s.drop_last()) * 10 + digit_value(s.last())
    }
}

/// Every character is a decimal digit.
pub open spec fn all_digits(s: Seq<char>) -> bool {
    forall|i: int| 0 <= i < s.len() ==> is_ascii_digit(#[trigger] s[i])
}

/// The text after an optional leading `+`.
pub open spec fn unsigned_body(s: Seq<char>) -> Seq<char> {
    if s.len() > 0 && s[0] == '+' {
        s.drop_first()
    } else {
        s
    }
}

/// What `str::parse::<usize>` accepts: an optional `+`, then one or more
/// decimal digits whose value fits in a `usize`.
pub open spec fn spec_parse_usize(s: Seq<char>) -> Option<usize> {
    let body = unsigned_body(s);
    if body.len() > 0 && all_digits(body) && digits_value(body) <= usize::MAX {
        Some(digits_value(body) as usize)
    } else {
        None
    }
}

/// Appending digits never makes the value smaller.
proof fn lemma_digits_value_grows(s: Seq<char>, j: int, k: int)
    requires
        0 <= j <= k <= s.len(),
        forall|i: int| 0 <= i < s.len() ==> is_ascii_digit(#[trigger] s[i]),
    ensures
        digits_value(s.take(j)) <= digits_value(s.take(k)),
    decreases k - j,
{
    if j < k {
        lemma_digits_value_grows(s, j, k - 1);
        assert(s.take(k).drop_last() =~= s.take(k - 1));
        assert(is_ascii_digit(s[k - 1]));
    }
}

/// What `str::parse::<u64>` accepts: an optional `+`, then one or more
/// decimal digits whose value fits in a `u64`.
pub open spec fn spec_parse_u64(s: Seq<char>) -> Option<u64> {
    let body = unsigned_body(s);
    if body.len() > 0 && all_digits(body) && digits_value(body) <= u64::MAX {
        Some(digits_value(body) as u64)
    } else {
        None
    }
}

/// Reads `chars[from..to]` as `str::parse::<usize>` does.
pub fn parse_usize(chars: &Vec<char>, from: usize, to: usize) -> (r: Option<usize>)
    requires
        from <= to <= chars@.len(),
    ensures
        r == spec_parse_usize(chars@.subrange(from as int, to as int)),
{
    let ghost s = chars@.subrange(from as int, to as int);
    let mut start = from;
    if from < to && chars[from] == '+' {
        start = from + 1;
    }
    let ghost body = chars@.subrange(start as int, to as int);
    proof {
        if from < to && chars@[from as int] == '+' {
            assert(body =~= s.drop_first());
        } else {
            assert(body =~= s);
        }
        assert(body == unsigned_body(s));
    }
    if start == to {
        return None;
    }
    let mut value: usize = 0;
    let mut i: usize = start;
    while i < to
        invariant
            from <= start <= i <= to <= chars@.len(),
            start < to,
            body == chars@.subrange(start as int, to as int),
            s == chars@.subrange(from as int, to as int),
            body == unsigned_body(s),
            forall|j: int| 0 <= j < i - start ==> is_ascii_digit(#[trigger] body[j]),
            value == digits_value(body.take(i - start)),
        decreases to - i,
    {
        let c = chars[i];
        let k: usize = i - start;
        proof {
            assert(body[k as int] == c);
            assert(body.take(k + 1).drop_last() =~= body.take(k as int));
        }
        if !('0' <= c && c <= '9') {
            proof {
                assert(!is_ascii_digit(body[k as int]));
                assert(!all_digits(body));
            }
            return None;
        }
        let d = (c as u32 - '0' as u32) as usize;
        proof {
            assert(body.take(k + 1).last() == c);
            assert(digits_value(body.take(k + 1)) == value * 10 + d);
        }
        let m = value.checked_mul(10);
        match m {
            None => {
                proof {
                    if all_digits(body) {
                        lemma_digits_value_grows(body, k + 1, body.len() as int);
                        assert(body.take(body.len() as int) =~= body);
                    }
                }
                return None;
            },
            Some(m) => {
                let a = m.checked_add(d);
                match a {
                    None => {
                        proof {
                            if all_digits(body) {
                                lemma_digits_value_grows(body, k + 1, body.len() as int);
                                assert(body.take(body.len() as int) =~= body);
                            }
                        }
                        return None;
                    },
                    Some(v) => {
                        value = v;
                    },
                }
            },
        }
        i = i + 1;
    }
    proof {
        assert(body.take(body.len() as int) =~= body);
    }
    Some(value)
}

/// Reads `chars[from..to]` as `str::parse::<u64>` does.
pub fn parse_u64(chars: &Vec<char>, from: usize, to: usize) -> (r: Option<u64>)
    requires
        from <= to <= chars@.len(),
    ensures
        r == spec_parse_u64(chars@.subrange(from as int, to as int)),
{
    let ghost s = chars@.subrange(from as int, to as int);
    let mut start = from;
    if from < to && chars[from] == '+' {
        start = from + 1;
    }
    let ghost body = chars@.subrange(start as int, to as int);
    proof {
        if from < to && chars@[from as int] == '+' {
            assert(body =~= s.drop_first());
        } else {
            assert(body =~= s);
        }
        assert(body == unsigned_body(s));
    }
    if start == to {
        return None;
    }
    let mut value: u64 = 0;
    let mut i: usize = start;
    while i < to
        invariant
            from <= start <= i <= to <= chars@.len(),
            start < to,
            body == chars@.subrange(start as int, to as int),
            s == chars@.subrange(from as int, to as int),
            body == unsigned_body(s),
            forall|j: int| 0 <= j < i - start ==> is_ascii_digit(#[trigger] body[j]),
            value == digits_value(body.take(i - start)),
        decreases to - i,
    {
        let c = chars[i];
        let k: usize = i - start;
        proof {
            assert(body[k as int] == c);
            assert(body.take(k + 1).drop_last() =~= body.take(k as int));
        }
        if !('0' <= c && c <= '9') {
            proof {
                assert(!is_ascii_digit(body[k as int]));
                assert(!all_digits(body));
            }
            return None;
        }
        let d = (c as u32 - '0' as u32) as u64;
        proof {
            assert(body.take(k + 1).last() == c);
            assert(digits_value(body.take(k + 1)) == value * 10 + d);
        }
        let m = value.checked_mul(10);
        match m {
            None => {
                proof {
                    if all_digits(body) {
                        lemma_digits_value_grows(body, k + 1, body.len() as int);
                        assert(body.take(body.len() as int) =~= body);
                    }
                }
                return None;
            },
            Some(m) => {
                let a = m.checked_add(d);
                match a {
                    None => {
                        proof {
                            if all_digits(body) {
                                lemma_digits_value_grows(body, k + 1, body.len() as int);
                                assert(body.take(body.len() as int) =~= body);
                            }
                        }
                        return None;
                    },
                    Some(v) => {
                        value = v;
                    },
                }
            },
        }
        i = i + 1;
    }
    proof {
        assert(body.take(body.len() as int) =~= body);
    }
    Some(value)
}

/// `i` is where `p` first occurs in `s`.
pub open spec fn is_first_occurrence(s: Seq<char>, p: Seq<char>, i: int) -> bool {
    &&& 0 <= i && i + p.len() <= s.len()
    &&& s.subrange(i, i + p.len()) == p
    &&& forall|j: int| 0 <= j < i ==> #[trigger] s.subrange(j, j + p.len()) != p
}

/// Where `p` first occurs in `s`, if it does.
pub open spec fn first_occurrence(s: Seq<char>, p: Seq<char>) -> Option<int> {
    if exists|i: int| is_first_occurrence(s, p, i) {
        Some(choose|i: int| is_first_occurrence(s, p, i))
    } else {
        None
    }
}

/// A first occurrence is unique.
pub proof fn lemma_first_occurrence_unique(s: Seq<char>, p: Seq<char>, i: int, j: int)
    requires
        is_first_occurrence(s, p, i),
        is_first_occurrence(s, p, j),
    ensures
        i == j,
{
    if i < j {
        assert(s.subrange(i, i + p.len()) != p);
    } else if j < i {
        assert(s.subrange(j, j + p.len()) != p);
    }
}

/// Where `needle` first occurs in `chars[from..to]`, counted from `from`.
pub fn find_chars(chars: &Vec<char>, from: usize, to: usize, needle: &Vec<char>) -> (r: Option<usize>)
    requires
        from <= to <= chars@.len(),
    ensures
        r == (match first_occurrence(chars@.subrange(from as int, to as int), needle@) {
            Some(i) => Some(i as usize),
            None => None::<usize>,
        }),
{
    let ghost s = chars@.subrange(from as int, to as int);
    let m = needle.len();
    if m > to - from {
        proof {
            assert forall|i: int| !is_first_occurrence(s, needle@, i) by {}
        }
        return None;
    }
    let last = to - m;
    let mut i: usize = from;
    while i <= last
        invariant
            from <= i <= last + 1,
            last + m == to,
            to <= chars@.len(),
            m == needle@.len(),
            s == chars@.subrange(from as int, to as int),
            forall|a: int| 0 <= a < i - from ==> #[trigger] s.subrange(a, a + m) != needle@,
        decreases last + 1 - i,
    {
        let mut j: usize = 0;
        let mut same = true;
        while j < m
            invariant
                i + m <= to <= chars@.len(),
                m == needle@.len(),
                j <= m,
                same == (forall|b: int| 0 <= b < j ==> chars@[i + b] == needle@[b]),
            decreases m - j,
        {
            if chars[i + j] != needle[j] {
                same = false;
            }
            j = j + 1;
        }
        let ghost k = (i - from) as int;
        if same {
            proof {
                assert(s.subrange(k, k + m) =~= needle@) by {
                    assert forall|b: int| 0 <= b < m implies s.subrange(k, k + m)[b] == needle@[b] by {
                        assert(s.subrange(k, k + m)[b] == chars@[i + b]);
                    }
                }
                assert(is_first_occurrence(s, needle@, k));
                let c = choose|c: int| is_first_occurrence(s, needle@, c);
                lemma_first_occurrence_unique(s, needle@, k, c);
            }
            return Some(i - from);
        }
        proof {
            assert(s.subrange(k, k + m) != needle@) by {
                let b = choose|b: int| 0 <= b < m && chars@[i + b] != needle@[b];
                assert(s.subrange(k, k + m)[b] == chars@[i + b]);
            }
        }
        i = i + 1;
    }
    proof {
        assert forall|c: int| !is_first_occurrence(s, needle@, c) by {
            if 0 <= c && c + m <= s.len() {
                assert(s.subrange(c, c + m) != needle@);
            }
        }
    }
    None
}

/// `a` is the first non-whitespace position of `s`.
pub open spec fn is_trim_start(s: Seq<char>, a: int) -> bool {
    &&& 0 <= a < s.len()
    &&& !spec_is_whitespace(s[a])
    &&& forall|j: int| 0 <= j < a ==> spec_is_whitespace(#[trigger] s[j])
}

/// `b - 1` is the last non-whitespace position of `s`.
pub open spec fn is_trim_end(s: Seq<char>, b: int) -> bool {
    &&& 0 < b <= s.len()
    &&& !spec_is_whitespace(s[b - 1])
    &&& forall|j: int| b <= j < s.len() ==> spec_is_whitespace(#[trigger] s[j])
}

/// `s` without leading and trailing whitespace, as `str::trim` gives it.
pub open spec fn trim_seq(s: Seq<char>) -> Seq<char> {
    if spec_is_blank(s) {
        Seq::empty()
    } else {
        let a = choose|a: int| is_trim_start(s, a);
        let b = choose|b: int| is_trim_end(s, b);
        s.subrange(a, b)
    }
}

/// The string `chars[from..to]` without leading and trailing whitespace.
pub fn trim_chars(chars: &Vec<char>, from: usize, to: usize) -> (r: String)
    requires
        from <= to <= chars@.len(),
    ensures
        r@ == trim_seq(chars@.subrange(from as int, to as int)),
{
    let ghost s = chars@.subrange(from as int, to as int);
    let mut a = from;
    while a < to && is_whitespace_char(chars[a])
        invariant
            from <= a <= to <= chars@.len(),
            s == chars@.subrange(from as int, to as int),
            forall|j: int| from <= j < a ==> spec_is_whitespace(#[trigger] chars@[j]),
        decreases to - a,
    {
        a = a + 1;
    }
    if a == to {
        proof {
            assert forall|i: int| 0 <= i < s.len() implies spec_is_whitespace(#[trigger] s[i]) by {
                assert(s[i] == chars@[from + i]);
            }
        }
        return String::new();
    }
    let mut b = to;
    while b > a && is_whitespace_char(chars[b - 1])
        invariant
            from <= a < b <= to <= chars@.len(),
            !spec_is_whitespace(chars@[a as int]),
            forall|j: int| b <= j < to ==> spec_is_whitespace(#[trigger] chars@[j]),
        decreases b - a,
    {
        b = b - 1;
    }
    proof {
        let (sa, sb) = ((a - from) as int, (b - from) as int);
        assert(!spec_is_whitespace(s[sa]));
        assert(!spec_is_blank(s));
        assert(is_trim_start(s, sa)) by {
            assert forall|j: int| 0 <= j < sa implies spec_is_whitespace(#[trigger] s[j]) by {
                assert(s[j] == chars@[from + j]);
            }
        }
        assert(is_trim_end(s, sb)) by {
            assert(s[sb - 1] == chars@[b - 1]);
            assert forall|j: int| sb <= j < s.len() implies spec_is_whitespace(#[trigger] s[j]) by {
                assert(s[j] == chars@[from + j]);
            }
        }
        let ca = choose|x: int| is_trim_start(s, x);
        let cb = choose|y: int| is_trim_end(s, y);
        assert(ca == sa) by {
            if ca < sa {
                assert(spec_is_whitespace(s[ca]));
            } else if ca > sa {
                assert(spec_is_whitespace(s[sa]));
            }
        }
        assert(cb == sb) by {
            if cb < sb {
                assert(spec_is_whitespace(s[sb - 1]));
            } else if cb > sb {
                assert(spec_is_whitespace(s[cb - 1]));
            }
        }
        assert(s.subrange(sa, sb) =~= chars@.subrange(a as int, b as int));
    }
    string_from_chars(chars, a, b)
}

/// What `str::to_lowercase` gives for a string: its Unicode lowercase mapping.
pub uninterp spec fn lowercase_text(s: Seq<char>) -> Seq<char>;

/// Every character is ASCII.
pub open spec fn is_ascii_text(s: Seq<char>) -> bool {
    forall|i: int| 0 <= i < s.len() ==> (#[trigger] s[i] as u32) < 128
}

/// The ASCII lowercase of a character: `A` to `Z` become `a` to `z`.
pub open spec fn ascii_lower(c: char) -> char {
    if 'A' <= c && c <= 'Z' {
        ((c as u32) + 32) as char
    } else {
        c
    }
}

/// The ASCII lowercase of a text, character by character.
pub open spec fn ascii_lowercase_text(s: Seq<char>) -> Seq<char> {
    s.map_values(|c: char| ascii_lower(c))
}

/// What `str::to_lowercase` gives: for ASCII text its ASCII lowercase, for
/// other text the Unicode lowercase mapping (named `lowercase_text`).
pub open spec fn spec_to_lowercase(s: Seq<char>) -> Seq<char> {
    if is_ascii_text(s) {
        ascii_lowercase_text(s)
    } else {
        lowercase_text(s)
    }
}

/// `str::to_lowercase`.
///
/// Claimed: the result depends on the string alone (named `lowercase_text`),
/// and on ASCII text it maps `A` to `Z` onto `a` to `z` and keeps every other
/// character; the Unicode case tables beyond ASCII are not restated.
#[verifier::external_body]
pub(crate) fn to_lowercase(s: &str) -> (r: String)
    ensures
        r@ == lowercase_text(s@),
        is_ascii_text(s@) ==> r@ == ascii_lowercase_text(s@),
{
    s.to_lowercase()
}

/// The order of texts by code point, character by character, a proper
/// prefix first: the order of `str`'s comparison operators.
pub open spec fn text_lt(a: Seq<char>, b: Seq<char>) -> bool
    decreases a.len(),
{
    if a.len() == 0 {
        b.len() > 0
    } else if b.len() == 0 {
        false
    } else if a[0] != b[0] {
        (a[0] as u32) < (b[0] as u32)
    } else {
        text_lt(a.drop_first(), b.drop_first())
    }
}

/// No two texts each come before the other.
pub proof fn lemma_text_lt_asymmetric(a: Seq<char>, b: Seq<char>)
    requires
        text_lt(a, b),
    ensures
        !text_lt(b, a),
    decreases a.len(),
{
    if a.len() > 0 && b.len() > 0 && a[0] == b[0] {
        lemma_text_lt_asymmetric(a.drop_first(), b.drop_first());
    }
}

/// The order of texts is transitive.
pub proof fn lemma_text_lt_transitive(a: Seq<char>, b: Seq<char>, c: Seq<char>)
    requires
        text_lt(a, b),
        text_lt(b, c),
    ensures
        text_lt(a, c),
    decreases a.len(),
{
    if a.len() > 0 && b.len() > 0 && c.len() > 0 && a[0] == b[0] && b[0] == c[0] {
        lemma_text_lt_transitive(a.drop_first(), b.drop_first(), c.drop_first());
    }
}

/// Whether `a` comes before `b` in the order of texts.
pub fn text_less(a: &str, b: &str) -> (r: bool)
    ensures
        r == text_lt(a@, b@),
{
    let ac = chars_of(a);
    let bc = chars_of(b);
    let mut i: usize = 0;
    proof {
        assert(a@.skip(0) =~= a@);
        assert(b@.skip(0) =~= b@);
    }
    while i < ac.len() && i < bc.len()
        invariant
            ac@ == a@,
            bc@ == b@,
            i <= ac@.len(),
            i <= bc@.len(),
            text_lt(a@, b@) == text_lt(a@.skip(i as int), b@.skip(i as int)),
        decreases ac@.len() - i,
    {
        let x = ac[i];
        let y = bc[i];
        if x != y {
            proof {
                let sa = a@.skip(i as int);
                let sb = b@.skip(i as int);
                assert(sa.len() > 0 && sb.len() > 0);
                assert(sa[0] == x);
                assert(sb[0] == y);
                assert(text_lt(sa, sb) == ((x as u32) < (y as u32)));
            }
            return (x as u32) < (y as u32);
        }
        proof {
            assert(a@.skip(i as int)[0] == b@.skip(i as int)[0]);
            assert(a@.skip(i as int).drop_first() =~= a@.skip(i as int + 1));
            assert(b@.skip(i as int).drop_first() =~= b@.skip(i as int + 1));
        }
        i = i + 1;
    }
    proof {
        assert(a@.skip(i as int).len() == a@.len() - i);
        assert(b@.skip(i as int).len() == b@.len() - i);
    }
    i == ac.len() && i < bc.len()
}

/// Whether `s` begins with `prefix`.
pub fn has_prefix(s: &str, prefix: &str) -> (r: bool)
    ensures
        r == (prefix@.len() <= s@.len() && s@.subrange(0, prefix@.len() as int) == prefix@),
{
    let sc = chars_of(s);
    let pc = chars_of(prefix);
    if pc.len() > sc.len() {
        return false;
    }
    let n = pc.len();
    let mut i: usize = 0;
    while i < n
        invariant
            sc@ == s@,
            pc@ == prefix@,
            n == pc@.len(),
            n <= sc@.len(),
            i <= n,
            forall|j: int| 0 <= j < i ==> #[trigger] sc@[j] == pc@[j],
        decreases n - i,
    {
        if sc[i] != pc[i] {
            proof {
                assert(s@.subrange(0, n as int)[i as int] != prefix@[i as int]);
            }
            return false;
        }
        i = i + 1;
    }
    proof {
        assert(s@.subrange(0, n as int) =~= prefix@);
    }
    true
}

} // verus!
