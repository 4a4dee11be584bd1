//! Small operations on text, stated over the characters of a string.

use vstd::prelude::*;
use vstd::string::StrSliceExecFns;

verus! {

/// The characters of `s`, in order.
pub fn chars_of(s: &str) -> (chars: Vec<char>)
    ensures
        chars@ == s@,
{
    let mut chars: Vec<char> = Vec::new();
    for c in it: s.chars()
        invariant
            it.seq() == s@,
            chars@ == s@.take(it.index() as int),
    {
        chars.push(c);
    }
    assert(s@.take(s@.len() as int) == s@);
    chars
}

/// Whether `a` and `b` are the same text.
pub fn same_text(a: &str, b: &str) -> (same: bool)
    ensures
        same == (a@ == b@),
{
    let x = chars_of(a);
    let y = chars_of(b);
    if x.len() != y.len() {
        return false;
    }
    for i in 0..x.len()
        invariant
            x@.len() == y@.len(),
            x@.take(i as int) == y@.take(i as int),
            x@ == a@,
            y@ == b@,
    {
        if x[i] != y[i] {
            return false;
        }
        assert(x@.take(i + 1) == x@.take(i as int).push(x@[i as int]));
        assert(y@.take(i + 1) == y@.take(i as int).push(y@[i as int]));
    }
    assert(x@.take(x@.len() as int) == x@);
    assert(y@.take(y@.len() as int) == y@);
    true
}

/// What follows `prefix` in `s`, if `s` begins with it.
pub fn strip_prefix<'a>(s: &'a str, prefix: &str) -> (rest: Option<&'a str>)
    ensures
        match rest {
            Some(r) => s@ == prefix@ + r@,
            None => !prefix@.is_prefix_of(s@),
        },
{
    let n: usize = prefix.unicode_len();
    let len: usize = s.unicode_len();
    if n > len {
        return None;
    }
    let head = s.substring_char(0, n);
    if same_text(head, prefix) {
        let r = s.substring_char(n, len);
        assert(s@ == prefix@ + r@);
        Some(r)
    } else {
        None
    }
}

/// Whether `s` ends in `suffix`.
pub fn ends_with(s: &str, suffix: &str) -> (r: bool)
    ensures
        r == suffix@.is_suffix_of(s@),
{
    let n: usize = suffix.unicode_len();
    let len: usize = s.unicode_len();
    if n > len {
        return false;
    }
    same_text(s.substring_char(len - n, len), suffix)
}

/// The code of `c`, with an ASCII capital letter taken as the small one.
pub open spec fn folded(c: char) -> u32 {
    if 'A' <= c && c <= 'Z' {
        (c as u32 + 32) as u32
    } else {
        c as u32
    }
}

/// Whether two texts are the same but for the case of ASCII letters.
pub open spec fn same_but_for_case(a: Seq<char>, b: Seq<char>) -> bool {
    &&& a.len() == b.len()
    &&& forall|i: int| 0 <= i < a.len() ==> folded(#[trigger] a[i]) == folded(b[i])
}

/// The code of `c`, with an ASCII capital letter taken as the small one.
fn fold(c: char) -> (code: u32)
    ensures
        code == folded(c),
{
    if 'A' <= c && c <= 'Z' {
        c as u32 + 32
    } else {
        c as u32
    }
}

/// Whether two texts are the same but for the case of ASCII letters.
pub fn eq_ignore_ascii_case(a: &str, b: &str) -> (same: bool)
    ensures
        same == same_but_for_case(a@, b@),
{
    let x = chars_of(a);
    let y = chars_of(b);
    if x.len() != y.len() {
        return false;
    }
    for i in 0..x.len()
        invariant
            x@ == a@,
            y@ == b@,
            x@.len() == y@.len(),
            forall|j: int| 0 <= j < i ==> folded(#[trigger] a@[j]) == folded(b@[j]),
    {
        if fold(x[i]) != fold(y[i]) {
            assert(folded(a@[i as int]) != folded(b@[i as int]));
            return false;
        }
    }
    true
}

/// What stands before the first `.` of `s`, if it has one.
pub open spec fn before_dot(s: Seq<char>) -> Option<Seq<char>>
    decreases s.len(),
{
    if s.len() == 0 {
        None
    } else if s[0] == '.' {
        Some(Seq::empty())
    } else {
        match before_dot(s.skip(1)) {
            Some(rest) => Some(seq![s[0]] + rest),
            None => None,
        }
    }
}

/// Text whose first `.` stands at `at` is split there.
proof fn lemma_before_dot(s: Seq<char>, at: int)
    requires
        0 <= at <= s.len(),
        forall|j: int| 0 <= j < at ==> s[j] != '.',
    ensures
        at < s.len() && s[at] == '.' ==> before_dot(s) == Some(s.take(at)),
        at == s.len() ==> before_dot(s) is None,
    decreases s.len(),
{
    if at > 0 {
        lemma_before_dot(s.skip(1), at - 1);
        if at < s.len() && s[at] == '.' {
            assert(seq![s[0]] + s.skip(1).take(at - 1) == s.take(at));
        }
    } else if s.len() > 0 {
        assert(s.take(0) == Seq::<char>::empty());
    }
}

/// What stands before the first `.` of `s`, if it has one.
pub fn split_at_dot<'a>(s: &'a str) -> (r: Option<&'a str>)
    ensures
        match r {
            Some(head) => before_dot(s@) == Some(head@),
            None => before_dot(s@) is None,
        },
{
    let chars = chars_of(s);
    for i in 0..chars.len()
        invariant
            chars@ == s@,
            forall|j: int| 0 <= j < i ==> chars@[j] != '.',
    {
        if chars[i] == '.' {
            proof {
                lemma_before_dot(s@, i as int);
            }
            return Some(s.substring_char(0, i));
        }
    }
    proof {
        lemma_before_dot(s@, s@.len() as int);
    }
    None
}

/// `s` without the `c`s that it begins with.
pub open spec fn trimmed_start(s: Seq<char>, c: char) -> Seq<char>
    decreases s.len(),
{
    if s.len() > 0 && s[0] == c {
        trimmed_start(s.skip(1), c)
    } else {
        s
    }
}

/// `s` without the `c`s that it begins with.
pub fn trim_start<'a>(s: &'a str, c: char) -> (r: &'a str)
    ensures
        r@ == trimmed_start(s@, c),
{
    let chars = chars_of(s);
    let n: usize = chars.len();
    assert(s@.skip(0) == s@);
    for i in 0..n
        invariant
            chars@ == s@,
            n == s@.len(),
            trimmed_start(s@, c) == trimmed_start(s@.skip(i as int), c),
    {
        if chars[i] != c {
            return s.substring_char(i, n);
        }
        assert(s@.skip(i as int).skip(1) == s@.skip(i + 1));
    }
    s.substring_char(n, n)
}

/// Whether `c` is one of `0` to `9`.
pub open spec fn is_digit(c: char) -> bool {
    '0' <= c && c <= '9'
}

/// Whether there is nothing but digits.
pub open spec fn all_digits(s: Seq<char>) -> bool {
    forall|i: int| 0 <= i < s.len() ==> is_digit(#[trigger] s[i])
}

/// The number that decimal digits stand for.
pub open spec fn decimal(digits: Seq<char>) -> nat
    decreases digits.len(),
{
    if digits.len() == 0 {
        0
    } else {
        decimal(digits.drop_last()) * 10 + (digits.last() as u32 - '0' as u32) as nat
    }
}

/// The first digits of a number stand for no more than all of them.
proof fn lemma_decimal_grows(digits: Seq<char>, n: int)
    requires
        0 <= n <= digits.len(),
    ensures
        decimal(digits.take(n)) <= decimal(digits),
    decreases digits.len() - n,
{
    if n < digits.len() {
        lemma_decimal_grows(digits, n + 1);
        assert(digits.take(n + 1).drop_last() == digits.take(n));
    } else {
        assert(digits.take(n) == digits);
    }
}

/// The number that stands in `chars` between `from` and `to`, if there are only
/// digits there, and it fits.
pub fn parse_decimal(chars: &Vec<char>, from: usize, to: usize) -> (r: Option<usize>)
    requires
        from <= to <= chars@.len(),
    ensures
        ({
            let digits = chars@.subrange(from as int, to as int);
            match r {
                Some(n) => all_digits(digits) && n == decimal(digits),
                None => !all_digits(digits) || decimal(digits) > usize::MAX,
            }
        }),
{
    let ghost digits = chars@.subrange(from as int, to as int);
    let mut n: usize = 0;
    for i in from..to
        invariant
            from <= to <= chars@.len(),
            digits == chars@.subrange(from as int, to as int),
            forall|j: int| 0 <= j < i - from ==> is_digit(#[trigger] digits[j]),
            n == decimal(digits.take(i - from)),
    {
        let c = chars[i];
        assert(c == digits[i - from]);
        if c < '0' || c > '9' {
            assert(!is_digit(digits[i - from]));
            return None;
        }
        let ghost more = digits.take(i - from + 1);
        assert(more.drop_last() == digits.take(i - from));
        let digit: usize = (c as u32 - '0' as u32) as usize;
        proof {
            lemma_decimal_grows(digits, i - from + 1);
        }
        match n.checked_mul(10) {
            Some(tens) => match tens.checked_add(digit) {
                Some(next) => n = next,
                None => return None,
            },
            None => return None,
        }
    }
    assert(digits.take(digits.len() as int) == digits);
    Some(n)
}

/// Whether two characters are the same, or one is the capital of the other, among
/// the ASCII letters.
pub open spec fn are_cases_of_one_letter(c: char, d: char) -> bool {
    ||| c == d
    ||| 65 <= c as int && c as int <= 90 && d as int == c as int + 32
    ||| 65 <= d as int && d as int <= 90 && c as int == d as int + 32
}

/// Text is the same but for case when it has the same length and each character
/// is the same, or a capital ASCII letter of the one is the small one of the other.
pub proof fn law_case_of_ascii_letters_is_ignored(a: Seq<char>, b: Seq<char>)
    ensures
        same_but_for_case(a, b) <==> {
            &&& a.len() == b.len()
            &&& forall|i: int|
                0 <= i < a.len() ==> are_cases_of_one_letter(#[trigger] a[i], b[i])
        },
{
    if a.len() == b.len() {
        assert forall|i: int| 0 <= i < a.len() implies (folded(#[trigger] a[i]) == folded(b[i])
            <==> are_cases_of_one_letter(a[i], b[i])) by {
            lemma_folded(a[i], b[i]);
        }
        if same_but_for_case(a, b) {
            assert forall|i: int| 0 <= i < a.len() implies are_cases_of_one_letter(
                #[trigger] a[i],
                b[i],
            ) by {}
        }
    }
}

/// Characters are folded to the same code when they are the same, or one is the
/// capital of the other.
proof fn lemma_folded(c: char, d: char)
    ensures
        folded(c) == folded(d) <==> are_cases_of_one_letter(c, d),
{
    let x = c as u32;
    let y = d as u32;
    assert(x == c as int && y == d as int);
}

/// Text with a `.` is what stands before the first one, the `.`, and the rest;
/// text without one has nothing before it.
pub proof fn law_text_is_split_at_its_first_dot(head: Seq<char>, rest: Seq<char>)
    requires
        !head.contains('.'),
    ensures
        before_dot(head + seq!['.'] + rest) == Some(head),
        before_dot(head) is None,
{
    let s = head + seq!['.'] + rest;
    assert forall|j: int| 0 <= j < head.len() implies s[j] != '.' by {
        assert(s[j] == head[j]);
    }
    lemma_before_dot(s, head.len() as int);
    assert(s.take(head.len() as int) == head);
    lemma_before_dot(head, head.len() as int);
}

/// Trimming takes away a run of the character at the beginning, and no more: what
/// is left does not begin with it.
pub proof fn law_trimming_takes_the_leading_run(s: Seq<char>, c: char)
    ensures
        ({
            let n = s.len() - trimmed_start(s, c).len();
            &&& 0 <= n <= s.len()
            &&& trimmed_start(s, c) == s.skip(n)
            &&& forall|i: int| 0 <= i < n ==> #[trigger] s[i] == c
            &&& trimmed_start(s, c).len() > 0 ==> trimmed_start(s, c)[0] != c
        }),
    decreases s.len(),
{
    if s.len() > 0 && s[0] == c {
        let rest = s.skip(1);
        law_trimming_takes_the_leading_run(rest, c);
        let n = s.len() - trimmed_start(s, c).len();
        assert(rest.skip(n - 1) == s.skip(n));
        assert forall|i: int| 0 <= i < n implies #[trigger] s[i] == c by {
            if i > 0 {
                assert(rest[i - 1] == s[i]);
            }
        }
    } else {
        assert(s.skip(0) == s);
    }
}

/// A further digit makes a number ten times what it was, and adds the digit.
pub proof fn law_digits_count_by_tens(digits: Seq<char>, last: char)
    requires
        is_digit(last),
    ensures
        decimal(Seq::empty()) == 0,
        decimal(digits.push(last)) == 10 * decimal(digits) + (last as u32 - 48),
        48 <= last as u32 <= 57,
{
    assert(digits.push(last).drop_last() == digits);
}

/// Text without a `.` has nothing before one.
pub proof fn law_text_without_a_dot_is_not_split(s: Seq<char>)
    requires
        !s.contains('.'),
    ensures
        before_dot(s) is None,
    decreases s.len(),
{
    if s.len() > 0 {
        assert(s.contains(s[0]));
        assert forall|i: int| 0 <= i < s.skip(1).len() implies s.skip(1)[i] != '.' by {
            assert(s.contains(s[i + 1]));
        }
        law_text_without_a_dot_is_not_split(s.skip(1));
    }
}

/// The digits are the ten characters from `0` to `9`, each of which stands for its
/// distance from `0`.
pub proof fn law_digits_are_zero_to_nine(c: char, s: Seq<char>)
    ensures
        is_digit(c) <==> 48 <= c as int && c as int <= 57,
        all_digits(s) <==> forall|i: int|
            0 <= i < s.len() ==> 48 <= #[trigger] s[i] as int && s[i] as int <= 57,
        is_digit(c) ==> decimal(seq![c]) == c as int - 48,
        all_digits(Seq::<char>::empty()) && decimal(Seq::<char>::empty()) == 0,
{
    if all_digits(s) {
        assert forall|i: int| 0 <= i < s.len() implies 48 <= #[trigger] s[i] as int && s[i] as int
            <= 57 by {
            assert(is_digit(s[i]));
        }
    }
    assert(seq![c].drop_last() == Seq::<char>::empty());
    assert(decimal(seq![c].drop_last()) == 0);
}

} // verus!
